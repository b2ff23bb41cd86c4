//! The codec negotiator: from what a pipeline port can carry to the catalog
//! entry of a track, and back.
//!
//! A local capability names its media by a type text and, for H.264, its
//! profile and level by their names. A catalog entry carries the same by
//! number. The two mappings here never guess: a profile or level outside the
//! tables of [`crate::h264`], or a codec this bridge does not carry, is
//! refused as an unsupported codec; media that is neither video nor audio is
//! refused as an unsupported kind.

use vstd::prelude::*;
use crate::catalog::{AudioCodec, H264, Media, TrackDescriptor, TrackView, VideoCodec};
use crate::error::BridgeError;
use crate::h264::{
    lemma_level_id_round_trip,
    lemma_level_name_round_trip,
    lemma_profile_id_round_trip,
    lemma_profile_name_round_trip,
    level_id,
    level_id_of,
    level_name,
    level_name_of,
    profile_id,
    profile_id_of,
    profile_name,
    profile_name_of,
};
use crate::text::{
    copy_optional_bytes,
    optional_bytes,
    optional_text,
    starts_with,
    text_eq,
    text_starts_with,
};

verus! {

/// What a port of the local pipeline can carry.
#[derive(Clone, Debug, PartialEq, Eq)]
pub struct LocalCapability {
    /// The media type, such as `video/x-h264` or `audio/x-opus`.
    pub media_type: String,
    /// The H.264 profile by name.
    pub profile: Option<String>,
    /// The H.264 level by name.
    pub level: Option<String>,
    /// The H.264 constraint flags.
    pub constraints: u8,
    /// The width of the picture in pixels.
    pub width: u32,
    /// The height of the picture in pixels.
    pub height: u32,
    /// The audio sampling rate in hertz.
    pub sample_rate: u32,
    /// The number of audio channels.
    pub channels: u32,
    /// Codec set-up bytes that travel outside the stream.
    pub codec_data: Option<Vec<u8>>,
}

/// What a local capability holds.
pub struct CapabilityView {
    pub media_type: Seq<char>,
    pub profile: Option<Seq<char>>,
    pub level: Option<Seq<char>>,
    pub constraints: u8,
    pub width: u32,
    pub height: u32,
    pub sample_rate: u32,
    pub channels: u32,
    pub codec_data: Option<Seq<u8>>,
}

impl View for LocalCapability {
    type V = CapabilityView;

    open spec fn view(&self) -> CapabilityView {
        CapabilityView {
            media_type: self.media_type@,
            profile: optional_text(self.profile),
            level: optional_text(self.level),
            constraints: self.constraints,
            width: self.width,
            height: self.height,
            sample_rate: self.sample_rate,
            channels: self.channels,
            codec_data: optional_bytes(self.codec_data),
        }
    }
}

/// The fields of a capability as the pipeline states them, each where the
/// pipeline states it.
#[derive(Clone, Debug, PartialEq, Eq)]
pub struct CapabilityFields {
    /// The media type.
    pub media_type: String,
    /// The H.264 profile by name.
    pub profile: Option<String>,
    /// The H.264 level by name.
    pub level: Option<String>,
    /// The H.264 constraint flags.
    pub constraints: Option<u32>,
    /// The width of the picture in pixels.
    pub width: Option<i32>,
    /// The height of the picture in pixels.
    pub height: Option<i32>,
    /// The audio sampling rate in hertz.
    pub rate: Option<i32>,
    /// The number of audio channels.
    pub channels: Option<i32>,
    /// Codec set-up bytes that travel outside the stream.
    pub codec_data: Option<Vec<u8>>,
}

/// What the fields of a capability hold.
pub struct FieldsView {
    pub media_type: Seq<char>,
    pub profile: Option<Seq<char>>,
    pub level: Option<Seq<char>>,
    pub constraints: Option<u32>,
    pub width: Option<i32>,
    pub height: Option<i32>,
    pub rate: Option<i32>,
    pub channels: Option<i32>,
    pub codec_data: Option<Seq<u8>>,
}

impl View for CapabilityFields {
    type V = FieldsView;

    open spec fn view(&self) -> FieldsView {
        FieldsView {
            media_type: self.media_type@,
            profile: optional_text(self.profile),
            level: optional_text(self.level),
            constraints: self.constraints,
            width: self.width,
            height: self.height,
            rate: self.rate,
            channels: self.channels,
            codec_data: optional_bytes(self.codec_data),
        }
    }
}

/// The count that a field states: zero, which stands for unknown, where the
/// field is absent; the field's value where it is not negative. A negative
/// count cannot be carried.
pub open spec fn count_of(field: Option<i32>) -> Result<u32, BridgeError> {
    match field {
        None => Ok(0u32),
        Some(value) => if value >= 0 {
            Ok(value as u32)
        } else {
            Err(BridgeError::UnsupportedCodec)
        },
    }
}

/// The constraint flags that a field states: none where the field is
/// absent; the field's value where it fits a byte. More than a byte cannot
/// be carried.
pub open spec fn flags_of(field: Option<u32>) -> Result<u8, BridgeError> {
    match field {
        None => Ok(0u8),
        Some(value) => if value <= 255 {
            Ok(value as u8)
        } else {
            Err(BridgeError::UnsupportedCodec)
        },
    }
}

/// The capability that fields state, where every number among them can be
/// carried. The texts and the set-up bytes are taken as they are.
pub open spec fn capability_from(fields: FieldsView) -> Result<CapabilityView, BridgeError> {
    match (
        flags_of(fields.constraints),
        count_of(fields.width),
        count_of(fields.height),
        count_of(fields.rate),
        count_of(fields.channels),
    ) {
        (Ok(constraints), Ok(width), Ok(height), Ok(sample_rate), Ok(channels)) => Ok(
            CapabilityView {
                media_type: fields.media_type,
                profile: fields.profile,
                level: fields.level,
                constraints,
                width,
                height,
                sample_rate,
                channels,
                codec_data: fields.codec_data,
            },
        ),
        _ => Err(BridgeError::UnsupportedCodec),
    }
}

/// The value of a numeric field for a count. A count of zero is unknown and
/// a count beyond the field's range cannot be said: for both the field is
/// left out.
pub open spec fn field_of(count: u32) -> Option<i32> {
    if 0 < count <= i32::MAX {
        Some(count as i32)
    } else {
        None
    }
}

/// The count that a field states.
pub fn count(field: Option<i32>) -> (out: Result<u32, BridgeError>)
    ensures
        out == count_of(field),
{
    match field {
        None => Ok(0),
        Some(value) => if value >= 0 {
            Ok(value as u32)
        } else {
            Err(BridgeError::UnsupportedCodec)
        },
    }
}

/// The constraint flags that a field states.
pub fn flags(field: Option<u32>) -> (out: Result<u8, BridgeError>)
    ensures
        out == flags_of(field),
{
    match field {
        None => Ok(0),
        Some(value) => if value <= 255 {
            Ok(value as u8)
        } else {
            Err(BridgeError::UnsupportedCodec)
        },
    }
}

/// The value of a numeric field for a count; `None` where the field is to
/// be left out.
pub fn field(count: u32) -> (out: Option<i32>)
    ensures
        out == field_of(count),
{
    if 0 < count && count <= 0x7fff_ffff {
        Some(count as i32)
    } else {
        None
    }
}

/// A count that a field can say comes back from the field as it was.
pub proof fn lemma_field_keeps_the_count(count: u32)
    ensures
        field_of(count) matches Some(value) ==> count_of(Some(value)) == Ok::<u32, BridgeError>(
            count,
        ),
        field_of(count) is None ==> count == 0 || count > i32::MAX,
{
}

/// The codecs this bridge carries.
#[derive(Clone, Copy, Debug, PartialEq, Eq, Structural)]
pub enum Family {
    H264,
    Opus,
}

/// How an H.264 stream is laid out for the pipeline.
#[derive(Clone, Copy, Debug, PartialEq, Eq, Structural)]
pub enum StreamFormat {
    /// Length-prefixed units, with the set-up bytes outside the stream.
    Avc,
    /// Start-code-prefixed units, with the set-up inside the stream.
    AnnexB,
}

impl Family {
    /// The media type that names this family.
    pub open spec fn spec_media_type(self) -> Seq<char> {
        match self {
            Family::H264 => "video/x-h264"@,
            Family::Opus => "audio/x-opus"@,
        }
    }

    /// The media type that names this family.
    pub fn media_type(&self) -> (name: &'static str)
        ensures
            name@ == self.spec_media_type(),
    {
        match self {
            Family::H264 => "video/x-h264",
            Family::Opus => "audio/x-opus",
        }
    }
}

impl StreamFormat {
    /// The name of this layout in a capability.
    pub open spec fn spec_name(self) -> Seq<char> {
        match self {
            StreamFormat::Avc => "avc"@,
            StreamFormat::AnnexB => "annexb"@,
        }
    }

    /// The name of this layout in a capability.
    pub fn name(&self) -> (name: &'static str)
        ensures
            name@ == self.spec_name(),
    {
        match self {
            StreamFormat::Avc => "avc",
            StreamFormat::AnnexB => "annexb",
        }
    }
}

/// The codec family that a media type names. Any other video or audio type
/// is an unsupported codec; any other type at all is an unsupported kind.
pub open spec fn family_of(media_type: Seq<char>) -> Result<Family, BridgeError> {
    if media_type == "video/x-h264"@ {
        Ok(Family::H264)
    } else if media_type == "audio/x-opus"@ {
        Ok(Family::Opus)
    } else if starts_with(media_type, "video/"@) || starts_with(media_type, "audio/"@) {
        Err(BridgeError::UnsupportedCodec)
    } else {
        Err(BridgeError::UnsupportedMediaKind)
    }
}

/// The H.264 identifiers that a pair of names stands for, where both are
/// present and in the tables.
pub open spec fn h264_of(
    profile: Option<Seq<char>>,
    level: Option<Seq<char>>,
    constraints: u8,
) -> Option<H264> {
    match (profile, level) {
        (Some(p), Some(l)) => match (profile_id_of(p), level_id_of(l)) {
            (Some(profile), Some(level)) => Some(H264 { profile, constraints, level }),
            _ => None,
        },
        _ => None,
    }
}

/// The catalog entry that describes a capability under a name and priority.
pub open spec fn described(name: Seq<char>, priority: i8, caps: CapabilityView) -> Result<
    TrackView,
    BridgeError,
> {
    match family_of(caps.media_type) {
        Err(e) => Err(e),
        Ok(Family::H264) => match h264_of(caps.profile, caps.level, caps.constraints) {
            Some(h264) => Ok(
                TrackView {
                    name,
                    priority,
                    media: Media::Video {
                        codec: VideoCodec::H264(h264),
                        width: caps.width,
                        height: caps.height,
                    },
                    bitrate: None,
                    description: caps.codec_data,
                },
            ),
            None => Err(BridgeError::UnsupportedCodec),
        },
        Ok(Family::Opus) => Ok(
            TrackView {
                name,
                priority,
                media: Media::Audio {
                    codec: AudioCodec::Opus,
                    sample_rate: caps.sample_rate,
                    channel_count: caps.channels,
                },
                bitrate: None,
                description: None,
            },
        ),
    }
}

/// The local capability that a catalog entry stands for.
pub open spec fn capability_of(track: TrackView) -> Result<CapabilityView, BridgeError> {
    match track.media {
        Media::Video { codec: VideoCodec::H264(h264), width, height } => match (
            profile_name_of(h264.profile),
            level_name_of(h264.level),
        ) {
            (Some(profile), Some(level)) => Ok(
                CapabilityView {
                    media_type: Family::H264.spec_media_type(),
                    profile: Some(profile),
                    level: Some(level),
                    constraints: h264.constraints,
                    width,
                    height,
                    sample_rate: 0,
                    channels: 0,
                    codec_data: track.description,
                },
            ),
            _ => Err(BridgeError::UnsupportedCodec),
        },
        Media::Audio { codec: AudioCodec::Opus, sample_rate, channel_count } => Ok(
            CapabilityView {
                media_type: Family::Opus.spec_media_type(),
                profile: None,
                level: None,
                constraints: 0,
                width: 0,
                height: 0,
                sample_rate,
                channels: channel_count,
                codec_data: None,
            },
        ),
        _ => Err(BridgeError::UnsupportedCodec),
    }
}

/// The layout of the stream that a capability announces: H.264 with set-up
/// bytes is AVC, H.264 without is Annex B, and nothing else has a layout.
pub open spec fn stream_format_of(caps: CapabilityView) -> Option<StreamFormat> {
    if family_of(caps.media_type) == Ok::<Family, BridgeError>(Family::H264) {
        if caps.codec_data is Some {
            Some(StreamFormat::Avc)
        } else {
            Some(StreamFormat::AnnexB)
        }
    } else {
        None
    }
}

/// How the units of a stream are cut for the pipeline: H.264 comes one
/// access unit to a buffer, and nothing else says.
pub open spec fn alignment_of(caps: CapabilityView) -> Option<Seq<char>> {
    if family_of(caps.media_type) == Ok::<Family, BridgeError>(Family::H264) {
        Some("au"@)
    } else {
        None
    }
}

/// The codec family that a media type names.
pub fn family(media_type: &str) -> (out: Result<Family, BridgeError>)
    ensures
        out == family_of(media_type@),
{
    if text_eq(media_type, "video/x-h264") {
        Ok(Family::H264)
    } else if text_eq(media_type, "audio/x-opus") {
        Ok(Family::Opus)
    } else if text_starts_with(media_type, "video/") || text_starts_with(media_type, "audio/") {
        Err(BridgeError::UnsupportedCodec)
    } else {
        Err(BridgeError::UnsupportedMediaKind)
    }
}

/// The H.264 identifiers for a profile and a level given by name.
pub fn h264_from_names(profile: &Option<String>, level: &Option<String>, constraints: u8) -> (out:
    Option<H264>)
    ensures
        out == h264_of(optional_text(*profile), optional_text(*level), constraints),
{
    match (profile, level) {
        (Some(p), Some(l)) => match (profile_id(p.as_str()), level_id(l.as_str())) {
            (Some(profile), Some(level)) => Some(H264 { profile, constraints, level }),
            _ => None,
        },
        _ => None,
    }
}

/// Describes a capability as the catalog entry of a track called `name`.
///
/// H.264 needs a profile and a level from the tables; Opus carries its
/// sampling rate and channel count over unchanged.
pub fn describe(name: &str, priority: i8, caps: &LocalCapability) -> (out: Result<
    TrackDescriptor,
    BridgeError,
>)
    ensures
        match out {
            Ok(track) => described(name@, priority, caps@) == Ok::<TrackView, BridgeError>(track@),
            Err(e) => described(name@, priority, caps@) == Err::<TrackView, BridgeError>(e),
        },
{
    match family(caps.media_type.as_str()) {
        Err(e) => Err(e),
        Ok(Family::H264) => match h264_from_names(&caps.profile, &caps.level, caps.constraints) {
            Some(h264) => Ok(
                TrackDescriptor {
                    name: name.to_owned(),
                    priority,
                    media: Media::Video {
                        codec: VideoCodec::H264(h264),
                        width: caps.width,
                        height: caps.height,
                    },
                    bitrate: None,
                    description: copy_optional_bytes(&caps.codec_data),
                },
            ),
            None => Err(BridgeError::UnsupportedCodec),
        },
        Ok(Family::Opus) => Ok(
            TrackDescriptor {
                name: name.to_owned(),
                priority,
                media: Media::Audio {
                    codec: AudioCodec::Opus,
                    sample_rate: caps.sample_rate,
                    channel_count: caps.channels,
                },
                bitrate: None,
                description: None,
            },
        ),
    }
}

/// Derives the local capability of a catalog entry.
pub fn to_local_capability(track: &TrackDescriptor) -> (out: Result<LocalCapability, BridgeError>)
    ensures
        match out {
            Ok(caps) => capability_of(track@) == Ok::<CapabilityView, BridgeError>(caps@),
            Err(e) => capability_of(track@) == Err::<CapabilityView, BridgeError>(e),
        },
{
    match track.media {
        Media::Video { codec: VideoCodec::H264(h264), width, height } => {
            match (profile_name(h264.profile), level_name(h264.level)) {
                (Some(profile), Some(level)) => Ok(
                    LocalCapability {
                        media_type: Family::H264.media_type().to_owned(),
                        profile: Some(profile.to_owned()),
                        level: Some(level.to_owned()),
                        constraints: h264.constraints,
                        width,
                        height,
                        sample_rate: 0,
                        channels: 0,
                        codec_data: copy_optional_bytes(&track.description),
                    },
                ),
                _ => Err(BridgeError::UnsupportedCodec),
            }
        },
        Media::Audio { codec: AudioCodec::Opus, sample_rate, channel_count } => Ok(
            LocalCapability {
                media_type: Family::Opus.media_type().to_owned(),
                profile: None,
                level: None,
                constraints: 0,
                width: 0,
                height: 0,
                sample_rate,
                channels: channel_count,
                codec_data: None,
            },
        ),
        _ => Err(BridgeError::UnsupportedCodec),
    }
}

/// What the result of reading a capability holds.
pub open spec fn capability_result(out: Result<LocalCapability, BridgeError>) -> Result<
    CapabilityView,
    BridgeError,
> {
    match out {
        Ok(caps) => Ok(caps@),
        Err(e) => Err(e),
    }
}

impl LocalCapability {
    /// The capability that the fields of the pipeline state. An absent
    /// number counts as zero, which stands for unknown; a negative size or
    /// sampling, or constraint flags beyond a byte, make the capability an
    /// unsupported codec.
    pub fn from_fields(fields: CapabilityFields) -> (out: Result<LocalCapability, BridgeError>)
        ensures
            capability_result(out) == capability_from(fields@),
    {
        match (
            flags(fields.constraints),
            count(fields.width),
            count(fields.height),
            count(fields.rate),
            count(fields.channels),
        ) {
            (Ok(constraints), Ok(width), Ok(height), Ok(sample_rate), Ok(channels)) => Ok(
                LocalCapability {
                    media_type: fields.media_type,
                    profile: fields.profile,
                    level: fields.level,
                    constraints,
                    width,
                    height,
                    sample_rate,
                    channels,
                    codec_data: fields.codec_data,
                },
            ),
            _ => Err(BridgeError::UnsupportedCodec),
        }
    }

    /// The capability of an H.264 stream with the named profile and level
    /// and the given picture size, without constraint flags or set-up bytes.
    pub fn h264(profile: &str, level: &str, width: u32, height: u32) -> (caps: LocalCapability)
        ensures
            caps@ == (CapabilityView {
                media_type: Family::H264.spec_media_type(),
                profile: Some(profile@),
                level: Some(level@),
                constraints: 0,
                width,
                height,
                sample_rate: 0,
                channels: 0,
                codec_data: None,
            }),
    {
        LocalCapability {
            media_type: Family::H264.media_type().to_owned(),
            profile: Some(profile.to_owned()),
            level: Some(level.to_owned()),
            constraints: 0,
            width,
            height,
            sample_rate: 0,
            channels: 0,
            codec_data: None,
        }
    }

    /// The capability of an Opus stream with the given sampling.
    pub fn opus(sample_rate: u32, channels: u32) -> (caps: LocalCapability)
        ensures
            caps@ == (CapabilityView {
                media_type: Family::Opus.spec_media_type(),
                profile: None,
                level: None,
                constraints: 0,
                width: 0,
                height: 0,
                sample_rate,
                channels,
                codec_data: None,
            }),
    {
        LocalCapability {
            media_type: Family::Opus.media_type().to_owned(),
            profile: None,
            level: None,
            constraints: 0,
            width: 0,
            height: 0,
            sample_rate,
            channels,
            codec_data: None,
        }
    }

    /// How the units of the stream are cut for the pipeline.
    pub fn alignment(&self) -> (alignment: Option<&'static str>)
        ensures
            match alignment {
                Some(name) => alignment_of(self@) == Some(name@),
                None => alignment_of(self@) is None,
            },
    {
        match family(self.media_type.as_str()) {
            Ok(Family::H264) => Some("au"),
            _ => None,
        }
    }

    /// The layout of the stream that this capability announces.
    pub fn stream_format(&self) -> (format: Option<StreamFormat>)
        ensures
            format == stream_format_of(self@),
    {
        match family(self.media_type.as_str()) {
            Ok(Family::H264) => {
                if self.codec_data.is_some() {
                    Some(StreamFormat::Avc)
                } else {
                    Some(StreamFormat::AnnexB)
                }
            },
            _ => None,
        }
    }
}

/// The media type of a family names that family.
pub proof fn lemma_media_type_names_its_family(family: Family)
    ensures
        family_of(family.spec_media_type()) == Ok::<Family, BridgeError>(family),
{
    reveal_strlit("video/x-h264");
    reveal_strlit("audio/x-opus");
    assert("audio/x-opus"@[0] == 'a');
}

/// Describing a capability and deriving the capability of the result gives
/// the same codec back: for H.264 the same profile and level, by name and by
/// number, with the same constraints, size and set-up bytes; for Opus the
/// same sampling rate and channel count. Describing that capability again
/// gives the same catalog entry.
pub proof fn lemma_describe_then_local(name: Seq<char>, priority: i8, caps: CapabilityView)
    ensures
        described(name, priority, caps) matches Ok(track) ==> {
            &&& capability_of(track) matches Ok(back)
            &&& back.media_type == caps.media_type
            &&& described(name, priority, back) == Ok::<TrackView, BridgeError>(track)
            &&& family_of(caps.media_type) == Ok::<Family, BridgeError>(Family::H264) ==> {
                &&& back.profile == caps.profile
                &&& back.level == caps.level
                &&& h264_of(back.profile, back.level, back.constraints) == h264_of(
                    caps.profile,
                    caps.level,
                    caps.constraints,
                )
                &&& back.constraints == caps.constraints
                &&& back.width == caps.width
                &&& back.height == caps.height
                &&& back.codec_data == caps.codec_data
            }
            &&& family_of(caps.media_type) == Ok::<Family, BridgeError>(Family::Opus) ==> {
                &&& back.sample_rate == caps.sample_rate
                &&& back.channels == caps.channels
            }
        },
{
    lemma_media_type_names_its_family(Family::H264);
    lemma_media_type_names_its_family(Family::Opus);
    if described(name, priority, caps) is Ok {
        if family_of(caps.media_type) == Ok::<Family, BridgeError>(Family::H264) {
            lemma_profile_name_round_trip(caps.profile->Some_0);
            lemma_level_name_round_trip(caps.level->Some_0);
        }
    }
}

/// A profile or a level that is missing or outside the tables makes an H.264
/// capability an unsupported codec, whatever else it holds.
pub proof fn lemma_unknown_h264_is_refused(name: Seq<char>, priority: i8, caps: CapabilityView)
    requires
        family_of(caps.media_type) == Ok::<Family, BridgeError>(Family::H264),
        match (caps.profile, caps.level) {
            (Some(p), Some(l)) => profile_id_of(p) is None || level_id_of(l) is None,
            _ => true,
        },
    ensures
        described(name, priority, caps) == Err::<TrackView, BridgeError>(
            BridgeError::UnsupportedCodec,
        ),
{
}

/// Deriving the capability of a catalog entry and describing it under the
/// entry's name and priority gives the entry's media back, and for video its
/// set-up bytes.
pub proof fn lemma_local_then_describe(track: TrackView)
    ensures
        capability_of(track) matches Ok(caps) ==> {
            &&& described(track.name, track.priority, caps) matches Ok(back)
            &&& back.name == track.name
            &&& back.priority == track.priority
            &&& back.media == track.media
            &&& track.media is Video ==> back.description == track.description
        },
{
    lemma_media_type_names_its_family(Family::H264);
    lemma_media_type_names_its_family(Family::Opus);
    if let Media::Video { codec: VideoCodec::H264(h264), .. } = track.media {
        lemma_profile_id_round_trip(h264.profile);
        lemma_level_id_round_trip(h264.level);
    }
}

} // verus!
