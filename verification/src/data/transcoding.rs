//! Records of the transcoding section.

use vstd::prelude::*;

verus! {

/// Stream details for a media file.
#[derive(Debug, Clone, PartialEq)]
pub struct StreamDetails {
    /// Protocol (e.g. "http", "hls").
    pub protocol: String,
    /// Container format.
    pub container: String,
    /// Codec.
    pub codec: String,
    /// Number of audio channels.
    pub audio_channels: Option<i32>,
    /// Audio bitrate in kbps.
    pub audio_bitrate: Option<i32>,
    /// Audio profile.
    pub audio_profile: Option<String>,
    /// Audio sample rate in Hz.
    pub audio_samplerate: Option<i32>,
    /// Audio bit depth.
    pub audio_bitdepth: Option<i32>,
}

/// Transcode decision response.
#[derive(Debug, Clone, PartialEq)]
pub struct TranscodeDecision {
    /// Whether direct play is possible.
    pub can_direct_play: bool,
    /// Whether transcoding is possible.
    pub can_transcode: bool,
    /// Reasons for transcoding (if any).
    pub transcode_reason: Vec<String>,
    /// Error reason (if any).
    pub error_reason: Option<String>,
    /// Transcoding parameters.
    pub transcode_params: Option<String>,
    /// Source stream details.
    pub source_stream: Option<StreamDetails>,
    /// Transcoded stream details.
    pub transcode_stream: Option<StreamDetails>,
}

/// Client info for transcode decision request.
#[derive(Debug, Clone, PartialEq)]
pub struct ClientInfo {
    /// Client name.
    pub name: String,
    /// Client platform.
    pub platform: String,
    /// Max audio bitrate.
    pub max_audio_bitrate: Option<i32>,
    /// Max transcoding audio bitrate.
    pub max_transcoding_audio_bitrate: Option<i32>,
    /// Direct play profiles.
    pub direct_play_profiles: Vec<DirectPlayProfile>,
    /// Transcoding profiles.
    pub transcoding_profiles: Vec<TranscodingProfile>,
    /// Codec profiles.
    pub codec_profiles: Vec<CodecProfile>,
}

/// Direct play profile.
#[derive(Debug, Clone, PartialEq)]
pub struct DirectPlayProfile {
    /// Supported containers (empty = any).
    pub containers: Vec<String>,
    /// Supported audio codecs (empty = any).
    pub audio_codecs: Vec<String>,
    /// Supported protocols (empty = any).
    pub protocols: Vec<String>,
    /// Max audio channels.
    pub max_audio_channels: Option<i32>,
}

/// Transcoding profile.
#[derive(Debug, Clone, PartialEq)]
pub struct TranscodingProfile {
    /// Container format.
    pub container: String,
    /// Audio codec.
    pub audio_codec: String,
    /// Protocol ("http" or "hls").
    pub protocol: String,
    /// Max audio channels.
    pub max_audio_channels: Option<i32>,
}

/// Codec profile.
#[derive(Debug, Clone, PartialEq)]
pub struct CodecProfile {
    /// Type (e.g. "AudioCodec").
    pub profile_type: String,
    /// Codec name.
    pub name: String,
    /// Limitations.
    pub limitations: Vec<Limitation>,
}

/// A limitation on a codec profile.
#[derive(Debug, Clone, PartialEq)]
pub struct Limitation {
    /// Limitation name (e.g. "audioChannels", "audioBitrate").
    pub name: String,
    /// Comparison operator.
    pub comparison: String,
    /// Values to compare against.
    pub values: Vec<String>,
    /// Whether this limitation is required.
    pub required: bool,
}

} // verus!
