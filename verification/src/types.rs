//! Xtream Codes response models and stream kinds.
//!
//! The models mirror the JSON objects that Xtream-compatible servers return.
//! Fields whose JSON type varies between server implementations are kept as
//! `serde_json::Value` and carried through untouched.

use vstd::prelude::*;

verus! {

#[verifier::external_type_specification]
#[verifier::external_body]
pub struct ExJsonValue(serde_json::Value);

/// `Clone` for `serde_json::Value` (derived): a deep copy, equal to the value copied.
pub assume_specification[ <serde_json::Value as Clone>::clone ](value: &serde_json::Value) -> (copy: serde_json::Value)
    ensures
        copy == *value,
;

// ---------------------------------------------------------------------------
// Stream format
// ---------------------------------------------------------------------------

/// Preferred stream output format.
#[derive(Debug, Clone, Copy, PartialEq, Eq, Hash, Structural)]
pub enum StreamFormat {
    /// MPEG Transport Stream.
    Ts,
    /// HTTP Live Streaming.
    M3u8,
    /// Real-Time Messaging Protocol.
    Rtmp,
}

impl Default for StreamFormat {
    fn default() -> (f: Self)
        ensures
            f == StreamFormat::Ts,
    {
        StreamFormat::Ts
    }
}

impl StreamFormat {
    /// The URL file extension of this format; RTMP falls back to `ts`.
    pub open spec fn spec_extension(self) -> Seq<char> {
        match self {
            StreamFormat::Ts => "ts"@,
            StreamFormat::M3u8 => "m3u8"@,
            StreamFormat::Rtmp => "ts"@,
        }
    }

    /// File extension for URL construction.
    pub fn extension(self) -> (ext: &'static str)
        ensures
            ext@ == self.spec_extension(),
    {
        match self {
            StreamFormat::Ts => "ts",
            StreamFormat::M3u8 => "m3u8",
            StreamFormat::Rtmp => "ts",
        }
    }
}

/// Type of content for stream URL generation.
#[derive(Debug, Clone, Copy, PartialEq, Eq, Hash, Structural)]
pub enum StreamType {
    /// Live TV channel.
    Channel,
    /// VOD movie.
    Movie,
    /// Series episode.
    Episode,
}

impl StreamType {
    /// The URL path segment of this kind of stream.
    pub open spec fn spec_path_segment(self) -> Seq<char> {
        match self {
            StreamType::Channel => "live"@,
            StreamType::Movie => "movie"@,
            StreamType::Episode => "series"@,
        }
    }

    /// URL path segment for this stream type.
    pub fn path_segment(self) -> (segment: &'static str)
        ensures
            segment@ == self.spec_path_segment(),
    {
        match self {
            StreamType::Channel => "live",
            StreamType::Movie => "movie",
            StreamType::Episode => "series",
        }
    }
}

// ---------------------------------------------------------------------------
// Response models
// ---------------------------------------------------------------------------

/// Top-level profile response from `player_api.php` (no action or `get_profile`).
#[derive(Debug, Clone)]
pub struct XtreamProfile {
    pub user_info: XtreamUserProfile,
    pub server_info: XtreamServerInfo,
}

/// User account information.
#[derive(Debug, Clone)]
pub struct XtreamUserProfile {
    pub username: String,
    pub password: String,
    /// Server message (MOTD, notices).
    pub message: String,
    /// Authentication flag (1 = authenticated).
    pub auth: u8,
    /// Account status (e.g. "Active", "Disabled").
    pub status: String,
    /// Expiration date as a Unix timestamp string.
    pub exp_date: Option<String>,
    /// Whether this is a trial account ("0" or "1").
    pub is_trial: Option<String>,
    /// Number of currently active connections.
    pub active_cons: Option<serde_json::Value>,
    /// Account creation date.
    pub created_at: Option<String>,
    /// Maximum concurrent connections (string in many implementations).
    pub max_connections: Option<serde_json::Value>,
    /// Formats the user is allowed to access (e.g. `["ts", "m3u8"]`).
    pub allowed_output_formats: Vec<String>,
}

/// Server information.
#[derive(Debug, Clone)]
pub struct XtreamServerInfo {
    /// Whether this is a XUI instance.
    pub xui: Option<serde_json::Value>,
    /// Software version.
    pub version: Option<String>,
    /// Software revision.
    pub revision: Option<String>,
    /// Base URL of the server.
    pub url: Option<String>,
    /// HTTP port.
    pub port: Option<serde_json::Value>,
    /// HTTPS port.
    pub https_port: Option<serde_json::Value>,
    /// Server protocol (http / https).
    pub server_protocol: Option<String>,
    /// RTMP port.
    pub rtmp_port: Option<serde_json::Value>,
    /// Server timezone.
    pub timezone: Option<String>,
    /// Current server timestamp.
    pub timestamp_now: Option<i64>,
    /// Current server time as formatted string.
    pub time_now: Option<String>,
}

/// A content category (live, VOD, or series).
#[derive(Debug, Clone)]
pub struct XtreamCategory {
    pub category_id: String,
    pub category_name: String,
    pub parent_id: Option<serde_json::Value>,
}

/// A live TV channel from `get_live_streams`.
#[derive(Debug, Clone)]
pub struct XtreamChannel {
    /// Position / order number.
    pub num: Option<i64>,
    /// Channel display name.
    pub name: String,
    /// Stream type (e.g. "live").
    pub stream_type: Option<String>,
    /// Unique stream identifier.
    pub stream_id: i64,
    /// Channel logo URL.
    pub stream_icon: Option<String>,
    /// Thumbnail URL.
    pub thumbnail: Option<String>,
    /// EPG channel identifier.
    pub epg_channel_id: Option<String>,
    /// Date added (Unix timestamp string or formatted date).
    pub added: Option<String>,
    /// Primary category ID.
    pub category_id: Option<String>,
    /// All category IDs this channel belongs to.
    pub category_ids: Vec<serde_json::Value>,
    /// Custom SID.
    pub custom_sid: Option<String>,
    /// Whether TV archive is available (0 or 1).
    pub tv_archive: Option<i64>,
    /// Direct source URL.
    pub direct_source: Option<String>,
    /// Days of archive available.
    pub tv_archive_duration: Option<i64>,
    /// Whether this channel is flagged as adult content by the provider.
    pub is_adult: bool,
    /// Generated stream URL (populated by the client).
    pub url: Option<String>,
}

/// A movie listing from `get_vod_streams`.
#[derive(Debug, Clone)]
pub struct XtreamMovieListing {
    pub num: Option<i64>,
    pub name: String,
    pub year: Option<String>,
    pub title: Option<String>,
    pub stream_type: Option<String>,
    pub stream_id: i64,
    pub stream_icon: Option<String>,
    pub rating: Option<serde_json::Value>,
    pub rating_5based: Option<serde_json::Value>,
    pub genre: Option<String>,
    pub added: Option<String>,
    pub episode_run_time: Option<serde_json::Value>,
    pub category_id: Option<String>,
    pub category_ids: Vec<serde_json::Value>,
    pub container_extension: Option<String>,
    pub custom_sid: Option<serde_json::Value>,
    pub direct_source: Option<String>,
    pub release_date: Option<String>,
    pub cast: Option<String>,
    pub director: Option<String>,
    pub plot: Option<String>,
    pub youtube_trailer: Option<String>,
    /// Generated stream URL (populated by the client).
    pub url: Option<String>,
}

/// Detailed movie info from `get_vod_info`.
#[derive(Debug, Clone)]
pub struct XtreamMovie {
    pub info: Option<XtreamMovieInfo>,
    pub movie_data: Option<XtreamMovieData>,
    /// Generated stream URL (populated by the client).
    pub url: Option<String>,
}

/// Movie stream data.
#[derive(Debug, Clone)]
pub struct XtreamMovieData {
    pub stream_id: i64,
    pub name: Option<String>,
    pub title: Option<String>,
    pub year: Option<String>,
    pub added: Option<String>,
    pub category_id: Option<String>,
    pub category_ids: Vec<serde_json::Value>,
    pub container_extension: Option<String>,
    pub custom_sid: Option<String>,
    pub direct_source: Option<String>,
}

/// Extended movie metadata.
#[derive(Debug, Clone)]
pub struct XtreamMovieInfo {
    pub kinopoisk_url: Option<String>,
    pub tmdb_id: Option<serde_json::Value>,
    pub name: Option<String>,
    pub original_name: Option<String>,
    pub cover_big: Option<String>,
    pub movie_image: Option<String>,
    pub release_date: Option<String>,
    pub episode_run_time: Option<serde_json::Value>,
    pub youtube_trailer: Option<String>,
    pub director: Option<String>,
    pub actors: Option<String>,
    pub cast: Option<String>,
    pub description: Option<String>,
    pub plot: Option<String>,
    pub age: Option<String>,
    pub mpaa_rating: Option<String>,
    pub rating_count_kinopoisk: Option<serde_json::Value>,
    pub country: Option<String>,
    pub genre: Option<String>,
    pub backdrop_path: Option<serde_json::Value>,
    pub duration_secs: Option<i64>,
    pub duration: Option<String>,
    pub bitrate: Option<serde_json::Value>,
    pub release_date_alt: Option<String>,
    pub subtitles: Option<serde_json::Value>,
    pub rating: Option<serde_json::Value>,
}

/// A series listing from `get_series`.
#[derive(Debug, Clone)]
pub struct XtreamShowListing {
    pub num: Option<i64>,
    pub name: String,
    pub title: Option<String>,
    pub year: Option<String>,
    pub series_id: i64,
    pub stream_type: Option<String>,
    pub cover: Option<String>,
    pub plot: Option<String>,
    pub cast: Option<String>,
    pub director: Option<String>,
    pub genre: Option<String>,
    pub release_date: Option<String>,
    pub last_modified: Option<String>,
    pub rating: Option<serde_json::Value>,
    pub rating_5based: Option<serde_json::Value>,
    pub backdrop_path: Option<serde_json::Value>,
    pub youtube_trailer: Option<String>,
    pub episode_run_time: Option<serde_json::Value>,
    pub category_id: Option<String>,
    pub category_ids: Vec<serde_json::Value>,
}

/// Series metadata.
#[derive(Debug, Clone)]
pub struct XtreamShowInfo {
    pub name: Option<String>,
    pub title: Option<String>,
    pub year: Option<String>,
    pub series_id: Option<i64>,
    pub cover: Option<String>,
    pub plot: Option<String>,
    pub cast: Option<String>,
    pub director: Option<String>,
    pub genre: Option<String>,
    pub release_date: Option<String>,
    pub last_modified: Option<String>,
    pub rating: Option<serde_json::Value>,
    pub rating_5based: Option<serde_json::Value>,
    pub backdrop_path: Option<serde_json::Value>,
    pub youtube_trailer: Option<String>,
    pub episode_run_time: Option<serde_json::Value>,
    pub category_id: Option<String>,
    pub category_ids: Vec<serde_json::Value>,
}

/// The `id` of an episode, which servers send either as a JSON number or as
/// a string.
#[derive(Debug, Clone)]
pub enum EpisodeId {
    /// A number that fits in `i64`.
    Integer(i64),
    /// A string.
    Text(String),
    /// Any other JSON value (a fractional or out-of-range number, an object, ...).
    Other(serde_json::Value),
}

/// An episode within a series season.
#[derive(Debug, Clone)]
pub struct XtreamEpisode {
    /// The episode's stream identifier.
    pub id: Option<EpisodeId>,
    pub episode_num: Option<serde_json::Value>,
    pub title: Option<String>,
    pub container_extension: Option<String>,
    pub info: Option<XtreamEpisodeInfo>,
    pub custom_sid: Option<String>,
    pub added: Option<String>,
    pub season: Option<serde_json::Value>,
    pub direct_source: Option<String>,
    pub subtitles: Option<serde_json::Value>,
    /// Generated stream URL (populated by the client).
    pub url: Option<String>,
}

/// Episode metadata.
#[derive(Debug, Clone)]
pub struct XtreamEpisodeInfo {
    pub air_date: Option<String>,
    pub release_date: Option<String>,
    pub plot: Option<String>,
    pub rating: Option<serde_json::Value>,
    pub movie_image: Option<String>,
    pub cover_big: Option<String>,
    pub duration_secs: Option<i64>,
    pub duration: Option<String>,
    pub tmdb_id: Option<serde_json::Value>,
    pub video: Option<serde_json::Value>,
    pub audio: Option<serde_json::Value>,
    pub bitrate: Option<serde_json::Value>,
    pub season: Option<serde_json::Value>,
}

/// Short EPG response from `get_short_epg`.
#[derive(Debug, Clone)]
pub struct XtreamShortEpg {
    pub epg_listings: Vec<XtreamEpgListing>,
}

/// A single EPG listing entry.
#[derive(Debug, Clone)]
pub struct XtreamEpgListing {
    pub id: Option<String>,
    pub epg_id: Option<String>,
    /// Title — may be base64-encoded by the server.
    pub title: Option<String>,
    pub lang: Option<String>,
    pub start: Option<String>,
    pub end: Option<String>,
    /// Description — may be base64-encoded by the server.
    pub description: Option<String>,
    pub channel_id: Option<String>,
    pub start_timestamp: Option<serde_json::Value>,
    pub stop_timestamp: Option<serde_json::Value>,
    pub stop: Option<String>,
}

/// Full EPG response from `get_simple_data_table`.
#[derive(Debug, Clone)]
pub struct XtreamFullEpg {
    pub epg_listings: Vec<XtreamFullEpgListing>,
}

/// A full EPG listing entry with archive/playback flags.
#[derive(Debug, Clone)]
pub struct XtreamFullEpgListing {
    pub id: Option<String>,
    pub epg_id: Option<String>,
    /// Title — may be base64-encoded by the server.
    pub title: Option<String>,
    pub lang: Option<String>,
    pub start: Option<String>,
    pub end: Option<String>,
    /// Description — may be base64-encoded by the server.
    pub description: Option<String>,
    pub channel_id: Option<String>,
    pub start_timestamp: Option<serde_json::Value>,
    pub stop_timestamp: Option<serde_json::Value>,
    /// Whether this programme is currently playing (0 or 1).
    pub now_playing: Option<i64>,
    /// Whether archive is available for this programme (0 or 1).
    pub has_archive: Option<i64>,
}

} // verus!
