use std::time::Duration;

use crispy_xtream::client::ep_id_as_i64;
use crispy_xtream::parse::{decode_epg_field, maybe_decode_base64};
use crispy_xtream::url::{
    build_api_url, build_stream_url, build_timeshift_url, build_xmltv_url,
    effective_channel_extension,
};
use crispy_xtream::{
    EpisodeId, StreamFormat, StreamType, XtreamClient, XtreamClientConfig, XtreamCredentials,
    XtreamEpisode, XtreamError,
};

fn default_episode() -> XtreamEpisode {
    XtreamEpisode {
        id: None,
        episode_num: None,
        title: None,
        container_extension: None,
        info: None,
        custom_sid: None,
        added: None,
        season: None,
        direct_source: None,
        subtitles: None,
        url: None,
    }
}

// -- client ------------------------------------------------------------------

#[test]
fn credentials_debug_redacts_secrets() {
    let creds = XtreamCredentials::new("http://example.com", "admin", "secret123");
    let debug = creds.redacted();
    assert!(!debug.contains("admin"));
    assert!(!debug.contains("secret123"));
    assert!(debug.contains("***"));
}

#[test]
fn credentials_strip_trailing_slash() {
    let creds = XtreamCredentials::new("http://example.com///", "u", "p");
    assert_eq!(creds.base_url, "http://example.com");
}

#[test]
fn stream_url_via_client() {
    let client = XtreamClient::new(XtreamCredentials::new("http://example.com", "user", "pass"));

    let url = client.stream_url(StreamType::Channel, 42, "ts");
    assert_eq!(url, "http://example.com/live/user/pass/42.ts");
}

#[test]
fn xmltv_url_via_client() {
    let client = XtreamClient::new(XtreamCredentials::new("http://example.com", "user", "pass"));

    let url = client.xmltv_url();
    assert_eq!(url, "http://example.com/xmltv.php?username=user&password=pass");
}

#[test]
fn timeshift_url_via_client() {
    let client = XtreamClient::new(XtreamCredentials::new("http://example.com", "user", "pass"));

    let url = client.timeshift_url(42, 120, "2024-01-01:10-00");
    assert_eq!(
        url,
        "http://example.com/timeshift/user/pass/120/2024-01-01:10-00/42.ts"
    );
}

#[test]
fn default_config_values() {
    let config = XtreamClientConfig::default();
    assert_eq!(config.connect_timeout, Duration::from_secs(15));
    assert_eq!(config.request_timeout, Duration::from_secs(120));
    assert!(!config.accept_invalid_certs);
    assert_eq!(config.preferred_format, StreamFormat::Ts);
}

#[test]
fn ep_id_from_number() {
    let ep = XtreamEpisode {
        id: Some(EpisodeId::Integer(42)),
        ..default_episode()
    };
    assert_eq!(ep_id_as_i64(&ep), Some(42));
}

#[test]
fn ep_id_from_string() {
    let ep = XtreamEpisode {
        id: Some(EpisodeId::Text("99".into())),
        ..default_episode()
    };
    assert_eq!(ep_id_as_i64(&ep), Some(99));
}

#[test]
fn ep_id_none() {
    let ep = XtreamEpisode {
        id: None,
        ..default_episode()
    };
    assert_eq!(ep_id_as_i64(&ep), None);
}

// -- error -------------------------------------------------------------------

#[test]
fn display_auth_error() {
    let err = XtreamError::Auth("bad credentials".into());
    assert_eq!(err.message(), "auth error: bad credentials");
}

#[test]
fn display_rate_limited() {
    let err = XtreamError::RateLimited {
        retry_after_secs: 30,
    };
    assert_eq!(err.message(), "rate limited: retry after 30s");
}

#[test]
fn from_serde_json_error() {
    let raw = serde_json::from_str::<serde_json::Value>("not json").unwrap_err();
    let err = XtreamError::from(raw);
    assert!(matches!(err, XtreamError::UnexpectedResponse(_)));
}

#[test]
fn from_url_parse_error() {
    let raw = url::Url::parse("://bad").unwrap_err();
    let err = XtreamError::from(raw);
    assert!(matches!(err, XtreamError::InvalidUrl(_)));
}

// -- parse -------------------------------------------------------------------

#[test]
fn decodes_valid_base64() {
    // "News" in base64
    assert_eq!(maybe_decode_base64("TmV3cw=="), "News");
}

#[test]
fn decodes_base64_description() {
    // "Daily news" in base64
    assert_eq!(maybe_decode_base64("RGFpbHkgbmV3cw=="), "Daily news");
}

#[test]
fn returns_plain_text_unchanged() {
    assert_eq!(maybe_decode_base64("Just plain text"), "Just plain text");
}

#[test]
fn handles_empty_string() {
    assert_eq!(maybe_decode_base64(""), "");
}

#[test]
fn handles_unicode_plain_text() {
    let text = "Programme en fran\u{00e7}ais";
    assert_eq!(maybe_decode_base64(text), text);
}

#[test]
fn decode_epg_field_some() {
    let field = Some("TmV3cw==".to_string());
    assert_eq!(decode_epg_field(&field), Some("News".to_string()));
}

#[test]
fn decode_epg_field_none() {
    assert_eq!(decode_epg_field(&None), None);
}

#[test]
fn decodes_base64_with_whitespace() {
    assert_eq!(maybe_decode_base64("  TmV3cw==  "), "News");
}

// -- types -------------------------------------------------------------------

#[test]
fn stream_format_extensions() {
    assert_eq!(StreamFormat::Ts.extension(), "ts");
    assert_eq!(StreamFormat::M3u8.extension(), "m3u8");
    assert_eq!(StreamFormat::Rtmp.extension(), "ts");
}

#[test]
fn stream_type_segments() {
    assert_eq!(StreamType::Channel.path_segment(), "live");
    assert_eq!(StreamType::Movie.path_segment(), "movie");
    assert_eq!(StreamType::Episode.path_segment(), "series");
}

// -- url ---------------------------------------------------------------------

#[test]
fn stream_url_live_channel() {
    let url = build_stream_url(
        "http://example.com",
        "user",
        "pass",
        StreamType::Channel,
        42,
        "ts",
    );
    assert_eq!(url, "http://example.com/live/user/pass/42.ts");
}

#[test]
fn stream_url_movie() {
    let url = build_stream_url(
        "http://example.com/",
        "user",
        "pass",
        StreamType::Movie,
        99,
        "mp4",
    );
    assert_eq!(url, "http://example.com/movie/user/pass/99.mp4");
}

#[test]
fn stream_url_episode() {
    let url = build_stream_url(
        "http://example.com",
        "user",
        "pass",
        StreamType::Episode,
        7,
        "mkv",
    );
    assert_eq!(url, "http://example.com/series/user/pass/7.mkv");
}

#[test]
fn timeshift_url() {
    let url = build_timeshift_url(
        "http://example.com",
        "user",
        "pass",
        42,
        120,
        "2024-01-01:10-00",
    );
    assert_eq!(
        url,
        "http://example.com/timeshift/user/pass/120/2024-01-01:10-00/42.ts"
    );
}

#[test]
fn xmltv_url() {
    let url = build_xmltv_url("http://example.com", "user", "pass");
    assert_eq!(url, "http://example.com/xmltv.php?username=user&password=pass");
}

#[test]
fn api_url() {
    let url = build_api_url("http://example.com", "user", "pass", "get_live_streams");
    assert_eq!(
        url,
        "http://example.com/player_api.php?username=user&password=pass&action=get_live_streams"
    );
}

#[test]
fn effective_extension_preferred_in_list() {
    let allowed = vec!["ts".to_string(), "m3u8".to_string()];
    assert_eq!(
        effective_channel_extension(StreamFormat::M3u8, &allowed),
        "m3u8"
    );
}

#[test]
fn effective_extension_fallback_to_first() {
    let allowed = vec!["m3u8".to_string()];
    assert_eq!(
        effective_channel_extension(StreamFormat::Ts, &allowed),
        "m3u8"
    );
}

#[test]
fn effective_extension_empty_allowed() {
    let allowed: Vec<String> = vec![];
    assert_eq!(effective_channel_extension(StreamFormat::Ts, &allowed), "ts");
}

#[test]
fn trailing_slash_stripped() {
    let url = build_xmltv_url("http://example.com/", "u", "p");
    assert!(url.starts_with("http://example.com/xmltv"));
    assert!(!url.contains("//xmltv"));
}
