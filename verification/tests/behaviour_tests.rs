use crispy_xtream::client::{
    decode_full_epg, decode_short_epg, ep_id_as_i64, ApiRequest, ProfileCache,
};
use crispy_xtream::fetch::{after_body, after_status, retry_after_secs, BodyRole, FetchStep};
use crispy_xtream::parse::maybe_decode_base64;
use crispy_xtream::text::{parse_i64, parse_u64};
use crispy_xtream::url::{
    build_api_url_with_params, build_stream_url, build_timeshift_url, build_xmltv_url,
    try_build_api_url, try_build_api_url_with_params,
};
use crispy_xtream::{
    EpisodeId, StreamFormat, StreamType, XtreamChannel, XtreamClient, XtreamClientConfig,
    XtreamCredentials, XtreamEpgListing, XtreamEpisode, XtreamError, XtreamFullEpg,
    XtreamFullEpgListing, XtreamMovie, XtreamMovieData, XtreamMovieInfo, XtreamMovieListing,
    XtreamProfile, XtreamServerInfo, XtreamShortEpg, XtreamShowInfo, XtreamUserProfile,
};

fn client() -> XtreamClient {
    XtreamClient::new(XtreamCredentials::new("http://example.com", "user", "pass"))
}

fn user_profile(auth: u8, status: &str, formats: &[&str]) -> XtreamUserProfile {
    XtreamUserProfile {
        username: "user".to_string(),
        password: "pass".to_string(),
        message: String::new(),
        auth,
        status: status.to_string(),
        exp_date: None,
        is_trial: None,
        active_cons: None,
        created_at: None,
        max_connections: None,
        allowed_output_formats: formats.iter().map(|f| f.to_string()).collect(),
    }
}

fn server_info() -> XtreamServerInfo {
    XtreamServerInfo {
        xui: None,
        version: None,
        revision: None,
        url: None,
        port: None,
        https_port: None,
        server_protocol: None,
        rtmp_port: None,
        timezone: Some("UTC".to_string()),
        timestamp_now: None,
        time_now: None,
    }
}

fn channel(stream_id: i64, name: &str) -> XtreamChannel {
    XtreamChannel {
        num: Some(1),
        name: name.to_string(),
        stream_type: Some("live".to_string()),
        stream_id,
        stream_icon: None,
        thumbnail: None,
        epg_channel_id: Some("bbc1.uk".to_string()),
        added: None,
        category_id: Some("1".to_string()),
        category_ids: Vec::new(),
        custom_sid: None,
        tv_archive: Some(1),
        direct_source: None,
        tv_archive_duration: Some(7),
        is_adult: false,
        url: None,
    }
}

fn movie_listing(stream_id: i64, ext: Option<&str>) -> XtreamMovieListing {
    XtreamMovieListing {
        num: None,
        name: "Film".to_string(),
        year: None,
        title: None,
        stream_type: Some("movie".to_string()),
        stream_id,
        stream_icon: None,
        rating: None,
        rating_5based: None,
        genre: None,
        added: None,
        episode_run_time: None,
        category_id: None,
        category_ids: Vec::new(),
        container_extension: ext.map(|e| e.to_string()),
        custom_sid: None,
        direct_source: None,
        release_date: None,
        cast: None,
        director: None,
        plot: None,
        youtube_trailer: None,
        url: None,
    }
}

fn movie_info() -> XtreamMovieInfo {
    XtreamMovieInfo {
        kinopoisk_url: None,
        tmdb_id: None,
        name: Some("Film".to_string()),
        original_name: None,
        cover_big: None,
        movie_image: None,
        release_date: None,
        episode_run_time: None,
        youtube_trailer: None,
        director: None,
        actors: None,
        cast: None,
        description: None,
        plot: None,
        age: None,
        mpaa_rating: None,
        rating_count_kinopoisk: None,
        country: None,
        genre: None,
        backdrop_path: None,
        duration_secs: None,
        duration: None,
        bitrate: None,
        release_date_alt: None,
        subtitles: None,
        rating: None,
    }
}

fn movie_data(stream_id: i64, ext: Option<&str>) -> XtreamMovieData {
    XtreamMovieData {
        stream_id,
        name: None,
        title: None,
        year: None,
        added: None,
        category_id: None,
        category_ids: Vec::new(),
        container_extension: ext.map(|e| e.to_string()),
        custom_sid: None,
        direct_source: None,
    }
}

fn show_info(name: Option<&str>) -> XtreamShowInfo {
    XtreamShowInfo {
        name: name.map(|n| n.to_string()),
        title: None,
        year: None,
        series_id: None,
        cover: None,
        plot: None,
        cast: None,
        director: None,
        genre: None,
        release_date: None,
        last_modified: None,
        rating: None,
        rating_5based: None,
        backdrop_path: None,
        youtube_trailer: None,
        episode_run_time: None,
        category_id: None,
        category_ids: Vec::new(),
    }
}

fn episode(id: Option<EpisodeId>, ext: Option<&str>) -> XtreamEpisode {
    XtreamEpisode {
        id,
        episode_num: None,
        title: Some("Pilot".to_string()),
        container_extension: ext.map(|e| e.to_string()),
        info: None,
        custom_sid: None,
        added: None,
        season: None,
        direct_source: None,
        subtitles: None,
        url: None,
    }
}

fn short_listing(title: Option<&str>, description: Option<&str>) -> XtreamEpgListing {
    XtreamEpgListing {
        id: Some("123".to_string()),
        epg_id: Some("bbc1.uk".to_string()),
        title: title.map(|t| t.to_string()),
        lang: Some("en".to_string()),
        start: None,
        end: None,
        description: description.map(|d| d.to_string()),
        channel_id: None,
        start_timestamp: None,
        stop_timestamp: None,
        stop: None,
    }
}

// -- base64 field decoding ---------------------------------------------------

#[test]
fn unpadded_base64_is_kept() {
    assert_eq!(maybe_decode_base64("TmV3cw"), "TmV3cw");
}

#[test]
fn invalid_utf8_is_kept() {
    // "/w==" decodes to the single byte 0xFF.
    assert_eq!(maybe_decode_base64("/w=="), "/w==");
}

#[test]
fn control_text_is_decoded() {
    // Valid base64 of valid UTF-8 is decoded, control characters included.
    assert_eq!(
        maybe_decode_base64("AQIDBAUG"),
        "\u{1}\u{2}\u{3}\u{4}\u{5}\u{6}"
    );
    assert_eq!(maybe_decode_base64("AAAAAAAA"), "\0\0\0\0\0\0");
}

#[test]
fn short_control_text_is_decoded() {
    // Three control bytes: too short for the garbage check.
    assert_eq!(maybe_decode_base64("AQID"), "\u{1}\u{2}\u{3}");
}

#[test]
fn newlines_are_not_garbage() {
    assert_eq!(maybe_decode_base64("CgoKCgoK"), "\n\n\n\n\n\n");
}

#[test]
fn unicode_white_space_is_trimmed() {
    assert_eq!(maybe_decode_base64("\u{3000}TmV3cw==\n"), "News");
}

#[test]
fn whitespace_only_decodes_to_empty() {
    assert_eq!(maybe_decode_base64("   "), "");
}

#[test]
fn encoded_text_decodes_to_itself() {
    // "Programme en français" in base64.
    assert_eq!(
        maybe_decode_base64("UHJvZ3JhbW1lIGVuIGZyYW7Dp2Fpcw=="),
        "Programme en fran\u{00e7}ais"
    );
}

// -- URLs ----------------------------------------------------------------------

#[test]
fn base_slashes_do_not_change_urls() {
    assert_eq!(
        build_xmltv_url("http://example.com///", "u", "p"),
        build_xmltv_url("http://example.com", "u", "p")
    );
    assert_eq!(
        build_stream_url("http://e.com//", "u", "p", StreamType::Movie, 1, "mp4"),
        build_stream_url("http://e.com", "u", "p", StreamType::Movie, 1, "mp4")
    );
}

#[test]
fn negative_and_extreme_ids_render_in_decimal() {
    assert_eq!(
        build_stream_url("http://e.com", "u", "p", StreamType::Channel, -5, "ts"),
        "http://e.com/live/u/p/-5.ts"
    );
    assert_eq!(
        build_timeshift_url("http://e.com", "u", "p", i64::MIN, u32::MAX, "s"),
        "http://e.com/timeshift/u/p/4294967295/s/-9223372036854775808.ts"
    );
}

#[test]
fn api_url_encodes_query_values() {
    let url = build_api_url_with_params(
        "http://example.com/",
        "a b&c",
        "p=q",
        "get_vod_info",
        &[("vod_id", "7")],
    );
    assert_eq!(
        url,
        "http://example.com/player_api.php?username=a+b%26c&password=p%3Dq&action=get_vod_info&vod_id=7"
    );
}

#[test]
fn api_url_of_unparsable_base_is_none() {
    assert_eq!(try_build_api_url("not a url", "u", "p", "get_profile"), None);
    assert_eq!(
        try_build_api_url_with_params("", "u", "p", "get_profile", &[]),
        None
    );
    assert_eq!(
        try_build_api_url("http://h", "u", "p", "get_profile"),
        Some("http://h/player_api.php?username=u&password=p&action=get_profile".to_string())
    );
}

#[test]
fn request_urls_of_each_call() {
    let c = client();
    let prefix = "http://example.com/player_api.php?username=user&password=pass&action=";
    let cases: Vec<(ApiRequest, &str)> = vec![
        (ApiRequest::Profile, "get_profile"),
        (ApiRequest::LiveCategories, "get_live_categories"),
        (ApiRequest::VodCategories, "get_vod_categories"),
        (ApiRequest::SeriesCategories, "get_series_categories"),
        (
            ApiRequest::LiveStreams { category_id: None },
            "get_live_streams",
        ),
        (
            ApiRequest::LiveStreams {
                category_id: Some("3".to_string()),
            },
            "get_live_streams&category_id=3",
        ),
        (
            ApiRequest::VodStreams {
                category_id: Some("4".to_string()),
            },
            "get_vod_streams&category_id=4",
        ),
        (ApiRequest::VodInfo { vod_id: 99 }, "get_vod_info&vod_id=99"),
        (ApiRequest::Series { category_id: None }, "get_series"),
        (
            ApiRequest::SeriesInfo { series_id: -1 },
            "get_series_info&series_id=-1",
        ),
        (
            ApiRequest::ShortEpg {
                stream_id: 42,
                limit: Some(10),
            },
            "get_short_epg&stream_id=42&limit=10",
        ),
        (
            ApiRequest::ShortEpg {
                stream_id: 42,
                limit: None,
            },
            "get_short_epg&stream_id=42",
        ),
        (
            ApiRequest::FullEpg { stream_id: 7 },
            "get_simple_data_table&stream_id=7",
        ),
    ];
    for (request, tail) in cases {
        assert_eq!(c.request_url(&request), Some(format!("{prefix}{tail}")));
    }
}

#[test]
fn request_url_of_bad_base_is_none() {
    let c = XtreamClient::new(XtreamCredentials::new("no scheme here", "u", "p"));
    assert_eq!(c.request_url(&ApiRequest::Profile), None);
}

#[test]
fn client_accessors() {
    let config = XtreamClientConfig {
        preferred_format: StreamFormat::M3u8,
        ..XtreamClientConfig::default()
    };
    let c = XtreamClient::with_config(
        XtreamCredentials::new("http://example.com/", "user", "pass"),
        config,
    );
    assert_eq!(c.base_url(), "http://example.com");
    assert_eq!(c.username(), "user");
    assert_eq!(c.preferred_format(), StreamFormat::M3u8);
    assert_eq!(c.config().rate_limit_retries, 1);
}

#[test]
fn redacted_credentials_show_base_url() {
    let creds = XtreamCredentials::new("http://example.com/", "admin", "secret");
    assert_eq!(
        creds.redacted(),
        "XtreamCredentials { base_url: \"http://example.com\", username: \"***\", password: \"***\" }"
    );
}

// -- errors --------------------------------------------------------------------

#[test]
fn every_error_message() {
    let cases = vec![
        (XtreamError::Auth("a".into()), "auth error: a"),
        (XtreamError::SessionExpired("b".into()), "session expired: b"),
        (
            XtreamError::RateLimited {
                retry_after_secs: 0,
            },
            "rate limited: retry after 0s",
        ),
        (XtreamError::Network("c".into()), "network error: c"),
        (XtreamError::Timeout("d".into()), "timeout: d"),
        (
            XtreamError::UnexpectedResponse("e".into()),
            "unexpected response: e",
        ),
        (XtreamError::NotFound("f".into()), "not found: f"),
        (XtreamError::InvalidUrl("g".into()), "invalid url: g"),
    ];
    for (err, text) in cases {
        assert_eq!(err.message(), text);
    }
    assert_eq!(
        XtreamError::RateLimited {
            retry_after_secs: u64::MAX
        }
        .message(),
        "rate limited: retry after 18446744073709551615s"
    );
}

#[test]
fn conversions_keep_the_description() {
    let raw = url::Url::parse("://bad").unwrap_err();
    assert_eq!(
        XtreamError::from(raw),
        XtreamError::InvalidUrl("relative URL without a base".to_string())
    );
    let raw = serde_json::from_str::<serde_json::Value>("not json").unwrap_err();
    let detail = raw.to_string();
    assert_eq!(
        XtreamError::from(raw),
        XtreamError::UnexpectedResponse(format!("json parse error: {detail}"))
    );
    assert_eq!(
        XtreamError::json_parse_failure("x"),
        XtreamError::UnexpectedResponse("json parse error: x".to_string())
    );
}

#[test]
fn transport_failures_by_kind() {
    assert_eq!(
        XtreamError::from_transport_failure(true, true, true, "t"),
        XtreamError::Timeout("t".to_string())
    );
    assert_eq!(
        XtreamError::from_transport_failure(false, true, true, "c"),
        XtreamError::Network("connection failed: c".to_string())
    );
    assert_eq!(
        XtreamError::from_transport_failure(false, false, true, "d"),
        XtreamError::UnexpectedResponse("decode error: d".to_string())
    );
    assert_eq!(
        XtreamError::from_transport_failure(false, false, false, "n"),
        XtreamError::Network("n".to_string())
    );
}

// -- exchange decisions ----------------------------------------------------------

#[test]
fn auth_statuses_fail() {
    assert_eq!(
        after_status(1, 401, "401 Unauthorized", None),
        FetchStep::Fail(XtreamError::Auth(
            "server returned 401 Unauthorized".to_string()
        ))
    );
    assert_eq!(
        after_status(0, 403, "403 Forbidden", Some("5")),
        FetchStep::Fail(XtreamError::Auth("server returned 403 Forbidden".to_string()))
    );
}

#[test]
fn rate_limit_waits_then_fails() {
    assert_eq!(
        after_status(1, 429, "429 Too Many Requests", Some("5")),
        FetchStep::Wait {
            secs: 5,
            retries_left: 0
        }
    );
    assert_eq!(
        after_status(0, 429, "429 Too Many Requests", Some("5")),
        FetchStep::Fail(XtreamError::RateLimited {
            retry_after_secs: 5
        })
    );
    assert_eq!(
        after_status(0, 429, "429 Too Many Requests", None),
        FetchStep::Fail(XtreamError::RateLimited {
            retry_after_secs: 60
        })
    );
}

#[test]
fn retry_after_header_values() {
    assert_eq!(retry_after_secs(Some("30")), 30);
    assert_eq!(retry_after_secs(Some("+7")), 7);
    assert_eq!(retry_after_secs(Some("")), 60);
    assert_eq!(retry_after_secs(Some(" 30")), 60);
    assert_eq!(retry_after_secs(Some("-1")), 60);
    assert_eq!(retry_after_secs(Some("18446744073709551615")), u64::MAX);
    assert_eq!(retry_after_secs(Some("18446744073709551616")), 60);
    assert_eq!(retry_after_secs(None), 60);
}

#[test]
fn bodies_are_read_by_status_class() {
    assert_eq!(
        after_status(1, 200, "200 OK", None),
        FetchStep::ReadBody(BodyRole::Payload)
    );
    assert_eq!(
        after_status(1, 204, "204 No Content", None),
        FetchStep::ReadBody(BodyRole::Payload)
    );
    assert_eq!(
        after_status(1, 500, "500 Internal Server Error", None),
        FetchStep::ReadBody(BodyRole::ServerError)
    );
    assert_eq!(
        after_status(1, 599, "599", None),
        FetchStep::ReadBody(BodyRole::ServerError)
    );
    assert_eq!(
        after_status(1, 404, "404 Not Found", None),
        FetchStep::ReadBody(BodyRole::UnexpectedStatus)
    );
    assert_eq!(
        after_status(1, 302, "302 Found", None),
        FetchStep::ReadBody(BodyRole::UnexpectedStatus)
    );
}

#[test]
fn bodies_turn_into_results() {
    assert_eq!(
        after_body(
            BodyRole::ServerError,
            "500 Internal Server Error",
            Ok("boom".to_string())
        ),
        Err(XtreamError::Network(
            "server error 500 Internal Server Error: boom".to_string()
        ))
    );
    assert_eq!(
        after_body(
            BodyRole::UnexpectedStatus,
            "404 Not Found",
            Err(XtreamError::Timeout("t".to_string()))
        ),
        Err(XtreamError::UnexpectedResponse(
            "unexpected status 404 Not Found: ".to_string()
        ))
    );
    assert_eq!(
        after_body(BodyRole::Payload, "200 OK", Ok(String::new())),
        Err(XtreamError::UnexpectedResponse(
            "empty response body".to_string()
        ))
    );
    assert_eq!(
        after_body(BodyRole::Payload, "200 OK", Ok("{}".to_string())),
        Ok("{}".to_string())
    );
    assert_eq!(
        after_body(
            BodyRole::Payload,
            "200 OK",
            Err(XtreamError::Timeout("slow".to_string()))
        ),
        Err(XtreamError::Timeout("slow".to_string()))
    );
}

#[test]
fn waits_never_exceed_retries() {
    // A server that always answers 429: the exchange waits exactly as often
    // as retries were configured, then gives up.
    for retries in 0u32..4 {
        let mut left = retries;
        let mut waits = 0u32;
        loop {
            match after_status(left, 429, "429 Too Many Requests", Some("1")) {
                FetchStep::Wait { secs, retries_left } => {
                    assert_eq!(secs, 1);
                    waits += 1;
                    left = retries_left;
                }
                FetchStep::Fail(e) => {
                    assert_eq!(
                        e,
                        XtreamError::RateLimited {
                            retry_after_secs: 1
                        }
                    );
                    break;
                }
                FetchStep::ReadBody(_) => panic!("a 429 answer has no body to read"),
            }
        }
        assert_eq!(waits, retries);
    }
}

// -- integer parsing ---------------------------------------------------------------

#[test]
fn integer_parsing_edges() {
    assert_eq!(parse_i64("-9223372036854775808"), Some(i64::MIN));
    assert_eq!(parse_i64("9223372036854775807"), Some(i64::MAX));
    assert_eq!(parse_i64("9223372036854775808"), None);
    assert_eq!(parse_i64("+12"), Some(12));
    assert_eq!(parse_i64("-"), None);
    assert_eq!(parse_i64("+"), None);
    assert_eq!(parse_i64(""), None);
    assert_eq!(parse_i64("1x"), None);
    assert_eq!(parse_i64("007"), Some(7));
    assert_eq!(parse_u64("-0"), None);
    assert_eq!(parse_u64("0"), Some(0));
}

// -- response post-processing ------------------------------------------------------

#[test]
fn episode_ids_of_other_shapes() {
    let ep = episode(Some(EpisodeId::Text(" 99".to_string())), None);
    assert_eq!(ep_id_as_i64(&ep), None);
    let ep = episode(Some(EpisodeId::Other(serde_json::Value::Bool(true))), None);
    assert_eq!(ep_id_as_i64(&ep), None);
    let ep = episode(Some(EpisodeId::Text("-3".to_string())), None);
    assert_eq!(ep_id_as_i64(&ep), Some(-3));
}

#[test]
fn profile_check() {
    let ok = XtreamProfile {
        user_info: user_profile(1, "Active", &["ts"]),
        server_info: server_info(),
    };
    assert_eq!(XtreamClient::check_profile(&ok), Ok(()));
    let bad = XtreamProfile {
        user_info: user_profile(0, "Disabled", &[]),
        server_info: server_info(),
    };
    assert_eq!(
        XtreamClient::check_profile(&bad),
        Err(XtreamError::Auth(
            "authentication failed: status=Disabled".to_string()
        ))
    );
}

#[test]
fn channel_extension_follows_profile() {
    let config = XtreamClientConfig {
        preferred_format: StreamFormat::M3u8,
        ..XtreamClientConfig::default()
    };
    let c = XtreamClient::with_config(
        XtreamCredentials::new("http://example.com", "user", "pass"),
        config,
    );
    assert_eq!(
        c.channel_extension(&user_profile(1, "Active", &["ts", "m3u8"])),
        "m3u8"
    );
    assert_eq!(c.channel_extension(&user_profile(1, "Active", &["ts"])), "ts");
    assert_eq!(c.channel_extension(&user_profile(1, "Active", &[])), "m3u8");
    let rtmp = XtreamClient::with_config(
        XtreamCredentials::new("http://example.com", "user", "pass"),
        XtreamClientConfig {
            preferred_format: StreamFormat::Rtmp,
            ..XtreamClientConfig::default()
        },
    );
    assert_eq!(rtmp.channel_extension(&user_profile(1, "Active", &[])), "ts");
}

#[test]
fn channel_urls_are_attached() {
    let c = client();
    let mut channels = vec![channel(42, "BBC One"), channel(43, "BBC Two")];
    c.attach_channel_urls(&mut channels, "m3u8");
    assert_eq!(
        channels[0].url.as_deref(),
        Some("http://example.com/live/user/pass/42.m3u8")
    );
    assert_eq!(
        channels[1].url.as_deref(),
        Some("http://example.com/live/user/pass/43.m3u8")
    );
    assert_eq!(channels[1].name, "BBC Two");
    assert_eq!(channels[0].tv_archive, Some(1));
}

#[test]
fn movie_urls_use_container_extension() {
    let c = client();
    let mut movies = vec![movie_listing(1, Some("mkv")), movie_listing(2, None)];
    c.attach_movie_urls(&mut movies);
    assert_eq!(
        movies[0].url.as_deref(),
        Some("http://example.com/movie/user/pass/1.mkv")
    );
    assert_eq!(
        movies[1].url.as_deref(),
        Some("http://example.com/movie/user/pass/2.mp4")
    );
}

#[test]
fn vod_info_without_info_is_not_found() {
    let c = client();
    let mut movie = XtreamMovie {
        info: None,
        movie_data: Some(movie_data(5, None)),
        url: None,
    };
    assert_eq!(
        c.finish_vod_info(77, &mut movie),
        Err(XtreamError::NotFound("movie 77 not found".to_string()))
    );
    assert_eq!(movie.url, None);
}

#[test]
fn vod_info_gets_stream_url() {
    let c = client();
    let mut movie = XtreamMovie {
        info: Some(movie_info()),
        movie_data: Some(movie_data(5, Some("avi"))),
        url: None,
    };
    assert_eq!(c.finish_vod_info(77, &mut movie), Ok(()));
    assert_eq!(
        movie.url.as_deref(),
        Some("http://example.com/movie/user/pass/5.avi")
    );
    let mut bare = XtreamMovie {
        info: Some(movie_info()),
        movie_data: None,
        url: None,
    };
    assert_eq!(c.finish_vod_info(77, &mut bare), Ok(()));
    assert_eq!(bare.url, None);
}

#[test]
fn series_info_checks_and_injects_id() {
    let mut none: Option<XtreamShowInfo> = None;
    assert_eq!(
        XtreamClient::finish_series_info(5, &mut none),
        Err(XtreamError::NotFound("series 5 not found".to_string()))
    );
    let mut nameless = Some(show_info(None));
    assert_eq!(
        XtreamClient::finish_series_info(6, &mut nameless),
        Err(XtreamError::NotFound("series 6 not found".to_string()))
    );
    let mut named = Some(show_info(Some("Show")));
    assert_eq!(XtreamClient::finish_series_info(7, &mut named), Ok(()));
    assert_eq!(named.unwrap().series_id, Some(7));
}

#[test]
fn episode_urls_need_an_integer_id() {
    let c = client();
    let mut episodes = vec![
        episode(Some(EpisodeId::Integer(11)), Some("mkv")),
        episode(Some(EpisodeId::Text("12".to_string())), None),
        episode(Some(EpisodeId::Text("x".to_string())), None),
        episode(None, None),
    ];
    c.attach_episode_urls(&mut episodes);
    assert_eq!(
        episodes[0].url.as_deref(),
        Some("http://example.com/series/user/pass/11.mkv")
    );
    assert_eq!(
        episodes[1].url.as_deref(),
        Some("http://example.com/series/user/pass/12.mp4")
    );
    assert_eq!(episodes[2].url, None);
    assert_eq!(episodes[3].url, None);
}

#[test]
fn short_epg_fields_are_decoded() {
    let mut epg = XtreamShortEpg {
        epg_listings: vec![
            short_listing(Some("TmV3cw=="), Some("RGFpbHkgbmV3cw==")),
            short_listing(Some("Plain"), None),
        ],
    };
    decode_short_epg(&mut epg);
    assert_eq!(epg.epg_listings[0].title.as_deref(), Some("News"));
    assert_eq!(
        epg.epg_listings[0].description.as_deref(),
        Some("Daily news")
    );
    assert_eq!(epg.epg_listings[0].lang.as_deref(), Some("en"));
    assert_eq!(epg.epg_listings[1].title.as_deref(), Some("Plain"));
    assert_eq!(epg.epg_listings[1].description, None);
}

#[test]
fn full_epg_fields_are_decoded() {
    let mut epg = XtreamFullEpg {
        epg_listings: vec![XtreamFullEpgListing {
            id: None,
            epg_id: None,
            title: Some("TmV3cw==".to_string()),
            lang: None,
            start: None,
            end: None,
            description: Some("not base64!".to_string()),
            channel_id: None,
            start_timestamp: None,
            stop_timestamp: None,
            now_playing: Some(1),
            has_archive: Some(0),
        }],
    };
    decode_full_epg(&mut epg);
    assert_eq!(epg.epg_listings[0].title.as_deref(), Some("News"));
    assert_eq!(
        epg.epg_listings[0].description.as_deref(),
        Some("not base64!")
    );
    assert_eq!(epg.epg_listings[0].now_playing, Some(1));
}

#[test]
fn profile_cache_gives_back_what_was_stored() {
    let mut cache = ProfileCache::new();
    assert!(cache.profile().is_none());
    assert!(cache.user().is_none());
    cache.store(XtreamProfile {
        user_info: user_profile(1, "Active", &["ts"]),
        server_info: server_info(),
    });
    cache.store(XtreamProfile {
        user_info: user_profile(1, "Renewed", &["m3u8"]),
        server_info: server_info(),
    });
    assert_eq!(cache.user().map(|u| u.status.as_str()), Some("Renewed"));
    assert_eq!(
        cache
            .profile()
            .and_then(|p| p.server_info.timezone.as_deref()),
        Some("UTC")
    );
}

#[test]
fn credentials_expose_their_secrets_on_request() {
    let creds = XtreamCredentials::new("http://example.com", "admin", "secret123");
    assert_eq!(creds.username(), "admin");
    assert_eq!(creds.password(), "secret123");
}
