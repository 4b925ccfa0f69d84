//! The Xtream client: configuration, credentials, request URLs, the
//! post-processing of responses and the decisions of the HTTP exchange.
//!
//! The network exchange itself (sending requests, awaiting bodies, sleeping
//! between retries, decoding JSON) belongs to the caller; every decision it
//! needs is made here.

use crate::error::XtreamError;
use crate::text::{
    i64_decimal, int_decimal, nat_decimal, parse_i64, parsed_i64, strip_trailing,
    trim_trailing_slashes, u64_decimal,
};
use crate::parse::{decode_epg_field, field_text};
use crate::types::{
    EpisodeId, StreamFormat, StreamType, XtreamChannel, XtreamEpgListing, XtreamEpisode,
    XtreamFullEpg, XtreamFullEpgListing, XtreamMovie, XtreamMovieListing, XtreamProfile,
    XtreamShortEpg, XtreamShowInfo, XtreamUserProfile,
};
use crate::url::{
    api_url_text, build_stream_url, channel_extension, effective_channel_extension, build_timeshift_url, build_xmltv_url, opt_text, str_pair_views,
    stream_url_text, timeshift_url_text, try_build_api_url_with_params, xmltv_url_text,
};
use secrecy::ExposeSecret;
use std::time::Duration;
use vstd::prelude::*;
use vstd::string::StringExecFns;

verus! {

/// A text kept in a `secrecy::SecretString`: zeroized on drop and redacted
/// in debug output.
#[verifier::external_body]
#[derive(Debug)]
pub struct SecretText {
    inner: secrecy::SecretString,
}

impl Clone for SecretText {
    /// `Clone` for `SecretString`: a new secret holding the same text.
    #[verifier::external_body]
    fn clone(&self) -> (copy: Self)
        ensures
            secret_text(copy) == secret_text(*self),
    {
        SecretText { inner: self.inner.clone() }
    }
}

// ---------------------------------------------------------------------------
// Configuration
// ---------------------------------------------------------------------------

/// The duration that `Duration::from_secs` returns for a whole number of seconds.
pub uninterp spec fn seconds(secs: u64) -> Duration;

/// `Duration::from_secs`: a span of whole seconds.
#[verifier::external_body]
fn duration_from_secs(secs: u64) -> (d: Duration)
    ensures
        d == seconds(secs),
{
    Duration::from_secs(secs)
}

/// `Clone` for `Duration`, a `Copy` type: the copy is the same span.
pub assume_specification[ <Duration as Clone>::clone ](d: &Duration) -> (copy: Duration)
    ensures
        copy == *d,
;

/// Client configuration with timeouts and TLS settings.
#[derive(Debug, Clone)]
pub struct XtreamClientConfig {
    /// TCP connect timeout (default: 15 s).
    pub connect_timeout: Duration,
    /// Total request timeout (default: 120 s).
    pub request_timeout: Duration,
    /// Accept invalid / self-signed TLS certificates.
    pub accept_invalid_certs: bool,
    /// Preferred stream format (default: TS).
    pub preferred_format: StreamFormat,
    /// Number of times to retry after a 429 response.
    pub rate_limit_retries: u32,
}

impl Default for XtreamClientConfig {
    fn default() -> (config: Self)
        ensures
            config.connect_timeout == seconds(15),
            config.request_timeout == seconds(120),
            !config.accept_invalid_certs,
            config.preferred_format == StreamFormat::Ts,
            config.rate_limit_retries == 1,
    {
        XtreamClientConfig {
            connect_timeout: duration_from_secs(15),
            request_timeout: duration_from_secs(120),
            accept_invalid_certs: false,
            preferred_format: StreamFormat::Ts,
            rate_limit_retries: 1,
        }
    }
}

// ---------------------------------------------------------------------------
// Credentials
// ---------------------------------------------------------------------------

/// The text that a secret holds.
pub uninterp spec fn secret_text(secret: SecretText) -> Seq<char>;

impl SecretText {
    /// `SecretString::from`: a secret holding `text`.
    #[verifier::external_body]
    pub(crate) fn new(text: &str) -> (secret: SecretText)
        ensures
            secret_text(secret) == text@,
    {
        SecretText { inner: secrecy::SecretString::from(text) }
    }

    /// `ExposeSecret::expose_secret`: the text the secret holds.
    #[verifier::external_body]
    pub(crate) fn expose(&self) -> (text: &str)
        ensures
            text@ == secret_text(*self),
    {
        self.inner.expose_secret()
    }
}

/// Xtream server credentials. The account name and password are kept as
/// secrets, which redact themselves in debug output.
#[derive(Clone)]
pub struct XtreamCredentials {
    pub base_url: String,
    pub username: SecretText,
    pub password: SecretText,
}

impl XtreamCredentials {
    /// Credentials for a server; trailing slashes of the base URL are removed.
    pub fn new(base_url: &str, username: &str, password: &str) -> (creds: Self)
        ensures
            creds.base_url@ == strip_trailing(base_url@, '/'),
            secret_text(creds.username) == username@,
            secret_text(creds.password) == password@,
    {
        XtreamCredentials {
            base_url: trim_trailing_slashes(base_url),
            username: SecretText::new(username),
            password: SecretText::new(password),
        }
    }

    /// The account name held in the credentials.
    pub fn username(&self) -> (name: &str)
        ensures
            name@ == secret_text(self.username),
    {
        self.username.expose()
    }

    /// The password held in the credentials.
    pub fn password(&self) -> (pass: &str)
        ensures
            pass@ == secret_text(self.password),
    {
        self.password.expose()
    }

    /// The debug rendering of the credentials, with both secrets shown as `***`.
    pub open spec fn spec_redacted(&self) -> Seq<char> {
        "XtreamCredentials { base_url: "@ + debug_quoted(self.base_url@)
            + ", username: \"***\", password: \"***\" }"@
    }

    /// The debug rendering of the credentials; the account name and the
    /// password appear only as `***`.
    pub fn redacted(&self) -> (text: String)
        ensures
            text@ == self.spec_redacted(),
    {
        let mut text = String::from_str("XtreamCredentials { base_url: ");
        let quoted = quote_debug(self.base_url.as_str());
        text.append(quoted.as_str());
        text.append(", username: \"***\", password: \"***\" }");
        text
    }
}

/// Redaction law: the debug rendering of credentials depends on the base URL
/// alone, so no account name or password can change it.
pub proof fn lemma_redaction_hides_secrets(a: XtreamCredentials, b: XtreamCredentials)
    requires
        a.base_url@ == b.base_url@,
    ensures
        a.spec_redacted() == b.spec_redacted(),
{
}

/// The `Debug` rendering of a string: quoted, with special characters escaped.
pub uninterp spec fn debug_quoted(text: Seq<char>) -> Seq<char>;

/// `format!("{:?}", text)`: the debug rendering of a string slice.
#[verifier::external_body]
fn quote_debug(text: &str) -> (quoted: String)
    ensures
        quoted@ == debug_quoted(text@),
{
    format!("{:?}", text)
}

} // verus!

verus! {

// ---------------------------------------------------------------------------
// Client
// ---------------------------------------------------------------------------

/// The API calls of an Xtream server, with their parameters.
#[derive(Debug, Clone)]
pub enum ApiRequest {
    /// `get_profile`: the account and server information.
    Profile,
    /// `get_live_categories`.
    LiveCategories,
    /// `get_vod_categories`.
    VodCategories,
    /// `get_series_categories`.
    SeriesCategories,
    /// `get_live_streams`, optionally for one category.
    LiveStreams { category_id: Option<String> },
    /// `get_vod_streams`, optionally for one category.
    VodStreams { category_id: Option<String> },
    /// `get_vod_info` for one movie.
    VodInfo { vod_id: i64 },
    /// `get_series`, optionally for one category.
    Series { category_id: Option<String> },
    /// `get_series_info` for one series.
    SeriesInfo { series_id: i64 },
    /// `get_short_epg` for one channel, with an optional entry limit.
    ShortEpg { stream_id: i64, limit: Option<u32> },
    /// `get_simple_data_table` (the full EPG) for one channel.
    FullEpg { stream_id: i64 },
}

/// The optional `category_id` pair.
pub open spec fn category_pairs(category_id: Option<String>) -> Seq<(Seq<char>, Seq<char>)> {
    match category_id {
        Some(c) => seq![("category_id"@, c@)],
        None => seq![],
    }
}

impl ApiRequest {
    /// The `action` of the call.
    pub open spec fn spec_action(&self) -> Seq<char> {
        match self {
            ApiRequest::Profile => "get_profile"@,
            ApiRequest::LiveCategories => "get_live_categories"@,
            ApiRequest::VodCategories => "get_vod_categories"@,
            ApiRequest::SeriesCategories => "get_series_categories"@,
            ApiRequest::LiveStreams { .. } => "get_live_streams"@,
            ApiRequest::VodStreams { .. } => "get_vod_streams"@,
            ApiRequest::VodInfo { .. } => "get_vod_info"@,
            ApiRequest::Series { .. } => "get_series"@,
            ApiRequest::SeriesInfo { .. } => "get_series_info"@,
            ApiRequest::ShortEpg { .. } => "get_short_epg"@,
            ApiRequest::FullEpg { .. } => "get_simple_data_table"@,
        }
    }

    /// The query pairs of the call after the credentials and the action.
    pub open spec fn spec_params(&self) -> Seq<(Seq<char>, Seq<char>)> {
        match self {
            ApiRequest::LiveStreams { category_id } => category_pairs(*category_id),
            ApiRequest::VodStreams { category_id } => category_pairs(*category_id),
            ApiRequest::Series { category_id } => category_pairs(*category_id),
            ApiRequest::VodInfo { vod_id } => seq![("vod_id"@, int_decimal(*vod_id as int))],
            ApiRequest::SeriesInfo { series_id } => seq![
                ("series_id"@, int_decimal(*series_id as int)),
            ],
            ApiRequest::ShortEpg { stream_id, limit } => seq![
                ("stream_id"@, int_decimal(*stream_id as int)),
            ] + match limit {
                Some(l) => seq![("limit"@, nat_decimal(*l as nat))],
                None => seq![],
            },
            ApiRequest::FullEpg { stream_id } => seq![
                ("stream_id"@, int_decimal(*stream_id as int)),
            ],
            _ => seq![],
        }
    }
}

/// Request law: each call names its action, and its query pairs after the
/// action are exactly its filters and identifiers. Every category-filtered
/// listing (live streams, VOD streams, series) carries exactly
/// `category_id=c` when a category `c` is given and nothing otherwise.
pub proof fn lemma_request_parameters(category: Option<String>, id: i64, limit: Option<u32>)
    ensures
        (ApiRequest::LiveStreams { category_id: category }).spec_action() == "get_live_streams"@,
        (ApiRequest::VodStreams { category_id: category }).spec_action() == "get_vod_streams"@,
        (ApiRequest::Series { category_id: category }).spec_action() == "get_series"@,
        (ApiRequest::VodInfo { vod_id: id }).spec_action() == "get_vod_info"@,
        (ApiRequest::SeriesInfo { series_id: id }).spec_action() == "get_series_info"@,
        (ApiRequest::ShortEpg { stream_id: id, limit }).spec_action() == "get_short_epg"@,
        (ApiRequest::FullEpg { stream_id: id }).spec_action() == "get_simple_data_table"@,
        category matches Some(c) ==> {
            &&& (ApiRequest::LiveStreams { category_id: category }).spec_params() == seq![
                ("category_id"@, c@),
            ]
            &&& (ApiRequest::VodStreams { category_id: category }).spec_params() == seq![
                ("category_id"@, c@),
            ]
            &&& (ApiRequest::Series { category_id: category }).spec_params() == seq![
                ("category_id"@, c@),
            ]
        },
        category is None ==> {
            &&& (ApiRequest::LiveStreams { category_id: category }).spec_params().len() == 0
            &&& (ApiRequest::VodStreams { category_id: category }).spec_params().len() == 0
            &&& (ApiRequest::Series { category_id: category }).spec_params().len() == 0
        },
        (ApiRequest::Series { category_id: category }).spec_params() == (ApiRequest::LiveStreams {
            category_id: category,
        }).spec_params(),
        (ApiRequest::VodStreams { category_id: category }).spec_params() == (
        ApiRequest::LiveStreams { category_id: category }).spec_params(),
        (ApiRequest::VodInfo { vod_id: id }).spec_params() == seq![("vod_id"@, int_decimal(id as int))],
        (ApiRequest::SeriesInfo { series_id: id }).spec_params() == seq![
            ("series_id"@, int_decimal(id as int)),
        ],
        (ApiRequest::FullEpg { stream_id: id }).spec_params() == seq![
            ("stream_id"@, int_decimal(id as int)),
        ],
        (ApiRequest::ShortEpg { stream_id: id, limit }).spec_params() == match limit {
            Some(l) => seq![("stream_id"@, int_decimal(id as int)), ("limit"@, nat_decimal(l as nat))],
            None => seq![("stream_id"@, int_decimal(id as int))],
        },
        ApiRequest::Profile.spec_params().len() == 0,
        ApiRequest::LiveCategories.spec_params().len() == 0,
        ApiRequest::VodCategories.spec_params().len() == 0,
        ApiRequest::SeriesCategories.spec_params().len() == 0,
{
    assert((ApiRequest::ShortEpg { stream_id: id, limit }).spec_params() =~= match limit {
        Some(l) => seq![("stream_id"@, int_decimal(id as int)), ("limit"@, nat_decimal(l as nat))],
        None => seq![("stream_id"@, int_decimal(id as int))],
    });
}

/// The Xtream client's state that does not involve the network: the
/// credentials and the configuration.
#[derive(Clone)]
pub struct XtreamClient {
    creds: XtreamCredentials,
    config: XtreamClientConfig,
}

impl XtreamClient {
    /// The base URL of the server, without trailing slashes.
    pub closed spec fn spec_base(&self) -> Seq<char> {
        self.creds.base_url@
    }

    /// The account name.
    pub closed spec fn spec_username(&self) -> Seq<char> {
        secret_text(self.creds.username)
    }

    /// The account password.
    pub closed spec fn spec_password(&self) -> Seq<char> {
        secret_text(self.creds.password)
    }

    /// The configuration.
    pub closed spec fn spec_config(&self) -> XtreamClientConfig {
        self.config
    }

    /// A client with the given credentials and the default configuration.
    pub fn new(creds: XtreamCredentials) -> (client: Self)
        ensures
            client.spec_base() == creds.base_url@,
            client.spec_username() == secret_text(creds.username),
            client.spec_password() == secret_text(creds.password),
            client.spec_config().connect_timeout == seconds(15),
            client.spec_config().request_timeout == seconds(120),
            !client.spec_config().accept_invalid_certs,
            client.spec_config().preferred_format == StreamFormat::Ts,
            client.spec_config().rate_limit_retries == 1,
    {
        Self::with_config(creds, XtreamClientConfig::default())
    }

    /// A client with the given credentials and configuration.
    pub fn with_config(creds: XtreamCredentials, config: XtreamClientConfig) -> (client: Self)
        ensures
            client.spec_base() == creds.base_url@,
            client.spec_username() == secret_text(creds.username),
            client.spec_password() == secret_text(creds.password),
            client.spec_config() == config,
    {
        XtreamClient { creds, config }
    }

    /// The base URL of the Xtream server.
    pub fn base_url(&self) -> (base: &str)
        ensures
            base@ == self.spec_base(),
    {
        self.creds.base_url.as_str()
    }

    /// The username used for authentication.
    pub fn username(&self) -> (name: &str)
        ensures
            name@ == self.spec_username(),
    {
        self.creds.username.expose()
    }

    /// The configured preferred stream format.
    pub fn preferred_format(&self) -> (format: StreamFormat)
        ensures
            format == self.spec_config().preferred_format,
    {
        self.config.preferred_format
    }

    /// The configuration of the client.
    pub fn config(&self) -> (config: &XtreamClientConfig)
        ensures
            *config == self.spec_config(),
    {
        &self.config
    }

    /// Build a stream URL for a given content type and ID.
    pub fn stream_url(&self, stream_type: StreamType, stream_id: i64, extension: &str) -> (url:
        String)
        ensures
            url@ == stream_url_text(
                self.spec_base(),
                self.spec_username(),
                self.spec_password(),
                stream_type,
                stream_id as int,
                extension@,
            ),
    {
        build_stream_url(
            self.creds.base_url.as_str(),
            self.creds.username.expose(),
            self.creds.password.expose(),
            stream_type,
            stream_id,
            extension,
        )
    }

    /// Build the XMLTV EPG URL.
    pub fn xmltv_url(&self) -> (url: String)
        ensures
            url@ == xmltv_url_text(self.spec_base(), self.spec_username(), self.spec_password()),
    {
        build_xmltv_url(
            self.creds.base_url.as_str(),
            self.creds.username.expose(),
            self.creds.password.expose(),
        )
    }

    /// Build a timeshift/catchup URL.
    pub fn timeshift_url(&self, stream_id: i64, duration_minutes: u32, start: &str) -> (url: String)
        ensures
            url@ == timeshift_url_text(
                self.spec_base(),
                self.spec_username(),
                self.spec_password(),
                stream_id as int,
                duration_minutes as nat,
                start@,
            ),
    {
        build_timeshift_url(
            self.creds.base_url.as_str(),
            self.creds.username.expose(),
            self.creds.password.expose(),
            stream_id,
            duration_minutes,
            start,
        )
    }

    /// The URL of an API call, or `None` when the base URL does not parse as
    /// an absolute URL.
    pub fn request_url(&self, request: &ApiRequest) -> (url: Option<String>)
        ensures
            opt_text(url) == api_url_text(
                self.spec_base(),
                self.spec_username(),
                self.spec_password(),
                request.spec_action(),
                request.spec_params(),
            ),
            request matches ApiRequest::LiveStreams { category_id: Some(c) } ==> opt_text(url)
                == api_url_text(
                self.spec_base(),
                self.spec_username(),
                self.spec_password(),
                "get_live_streams"@,
                seq![("category_id"@, c@)],
            ),
            request matches ApiRequest::LiveStreams { category_id: None } ==> opt_text(url)
                == api_url_text(
                self.spec_base(),
                self.spec_username(),
                self.spec_password(),
                "get_live_streams"@,
                seq![],
            ),
            request matches ApiRequest::VodStreams { category_id: Some(c) } ==> opt_text(url)
                == api_url_text(
                self.spec_base(),
                self.spec_username(),
                self.spec_password(),
                "get_vod_streams"@,
                seq![("category_id"@, c@)],
            ),
            request matches ApiRequest::VodStreams { category_id: None } ==> opt_text(url)
                == api_url_text(
                self.spec_base(),
                self.spec_username(),
                self.spec_password(),
                "get_vod_streams"@,
                seq![],
            ),
            request matches ApiRequest::Series { category_id: Some(c) } ==> opt_text(url)
                == api_url_text(
                self.spec_base(),
                self.spec_username(),
                self.spec_password(),
                "get_series"@,
                seq![("category_id"@, c@)],
            ),
            request matches ApiRequest::Series { category_id: None } ==> opt_text(url)
                == api_url_text(
                self.spec_base(),
                self.spec_username(),
                self.spec_password(),
                "get_series"@,
                seq![],
            ),
    {
        let base = self.creds.base_url.as_str();
        let user = self.creds.username.expose();
        let pass = self.creds.password.expose();
        let no_params: Vec<(&str, &str)> = Vec::new();
        assert(str_pair_views(no_params@) =~= seq![]);
        match request {
            ApiRequest::Profile => try_build_api_url_with_params(
                base,
                user,
                pass,
                "get_profile",
                no_params.as_slice(),
            ),
            ApiRequest::LiveCategories => try_build_api_url_with_params(
                base,
                user,
                pass,
                "get_live_categories",
                no_params.as_slice(),
            ),
            ApiRequest::VodCategories => try_build_api_url_with_params(
                base,
                user,
                pass,
                "get_vod_categories",
                no_params.as_slice(),
            ),
            ApiRequest::SeriesCategories => try_build_api_url_with_params(
                base,
                user,
                pass,
                "get_series_categories",
                no_params.as_slice(),
            ),
            ApiRequest::LiveStreams { category_id } => {
                let params = category_params(category_id);
                try_build_api_url_with_params(base, user, pass, "get_live_streams", params.as_slice())
            },
            ApiRequest::VodStreams { category_id } => {
                let params = category_params(category_id);
                try_build_api_url_with_params(base, user, pass, "get_vod_streams", params.as_slice())
            },
            ApiRequest::Series { category_id } => {
                let params = category_params(category_id);
                try_build_api_url_with_params(base, user, pass, "get_series", params.as_slice())
            },
            ApiRequest::VodInfo { vod_id } => {
                let id = i64_decimal(*vod_id);
                let mut params: Vec<(&str, &str)> = Vec::new();
                params.push(("vod_id", id.as_str()));
                assert(str_pair_views(params@) =~= request.spec_params());
                try_build_api_url_with_params(base, user, pass, "get_vod_info", params.as_slice())
            },
            ApiRequest::SeriesInfo { series_id } => {
                let id = i64_decimal(*series_id);
                let mut params: Vec<(&str, &str)> = Vec::new();
                params.push(("series_id", id.as_str()));
                assert(str_pair_views(params@) =~= request.spec_params());
                try_build_api_url_with_params(base, user, pass, "get_series_info", params.as_slice())
            },
            ApiRequest::ShortEpg { stream_id, limit } => {
                let id = i64_decimal(*stream_id);
                let limit_text = match limit {
                    Some(l) => u64_decimal(*l as u64),
                    None => String::new(),
                };
                let mut params: Vec<(&str, &str)> = Vec::new();
                params.push(("stream_id", id.as_str()));
                if limit.is_some() {
                    params.push(("limit", limit_text.as_str()));
                }
                assert(str_pair_views(params@) =~= request.spec_params());
                try_build_api_url_with_params(base, user, pass, "get_short_epg", params.as_slice())
            },
            ApiRequest::FullEpg { stream_id } => {
                let id = i64_decimal(*stream_id);
                let mut params: Vec<(&str, &str)> = Vec::new();
                params.push(("stream_id", id.as_str()));
                assert(str_pair_views(params@) =~= request.spec_params());
                try_build_api_url_with_params(
                    base,
                    user,
                    pass,
                    "get_simple_data_table",
                    params.as_slice(),
                )
            },
        }
    }
}

/// The `category_id` parameter when a category is given.
fn category_params(category_id: &Option<String>) -> (params: Vec<(&str, &str)>)
    ensures
        str_pair_views(params@) == category_pairs(*category_id),
{
    let mut params: Vec<(&str, &str)> = Vec::new();
    match category_id {
        Some(c) => {
            params.push(("category_id", c.as_str()));
        },
        None => {},
    }
    assert(str_pair_views(params@) =~= category_pairs(*category_id));
    params
}

} // verus!

verus! {

// ---------------------------------------------------------------------------
// Response post-processing
// ---------------------------------------------------------------------------

/// The stream identifier of an episode: a JSON integer as is, a string by
/// `str::parse::<i64>`, anything else none.
pub open spec fn episode_id_value(id: Option<EpisodeId>) -> Option<i64> {
    match id {
        Some(EpisodeId::Integer(i)) => Some(i),
        Some(EpisodeId::Text(s)) => parsed_i64(s@),
        _ => None,
    }
}

/// Extract the episode ID as `i64` from the polymorphic `id` field.
pub fn ep_id_as_i64(ep: &XtreamEpisode) -> (id: Option<i64>)
    ensures
        id == episode_id_value(ep.id),
{
    match &ep.id {
        Some(EpisodeId::Integer(i)) => Some(*i),
        Some(EpisodeId::Text(s)) => parse_i64(s.as_str()),
        _ => None,
    }
}

/// The container extension of a stream, `mp4` when the server names none.
pub open spec fn container_or_mp4(ext: Option<String>) -> Seq<char> {
    match ext {
        Some(e) => e@,
        None => "mp4"@,
    }
}

fn container_ext(ext: &Option<String>) -> (e: &str)
    ensures
        e@ == container_or_mp4(*ext),
{
    match ext {
        Some(e) => e.as_str(),
        None => "mp4",
    }
}

/// The view of an optional field after base64 field decoding.
pub open spec fn decoded_field(field: Option<String>) -> Option<Seq<char>> {
    match field {
        Some(f) => Some(field_text(f@)),
        None => None,
    }
}

/// Whether `url` holds exactly the text `text`.
pub open spec fn url_is(url: Option<String>, text: Seq<char>) -> bool {
    url is Some && url->0@ == text
}

impl XtreamClient {
    /// The stream URL of a stream of this client's account.
    pub open spec fn spec_stream_url(&self, stream_type: StreamType, stream_id: int, ext: Seq<char>) -> Seq<char> {
        stream_url_text(
            self.spec_base(),
            self.spec_username(),
            self.spec_password(),
            stream_type,
            stream_id,
            ext,
        )
    }

    /// Checks the profile that authentication returned: the account is
    /// authenticated exactly when its `auth` flag is 1.
    pub fn check_profile(profile: &XtreamProfile) -> (checked: Result<(), XtreamError>)
        ensures
            checked is Ok <==> profile.user_info.auth == 1,
            checked is Err ==> (checked->Err_0 matches XtreamError::Auth(m) && m@
                == "authentication failed: status="@ + profile.user_info.status@),
    {
        if profile.user_info.auth != 1 {
            Err(
                XtreamError::Auth(
                    String::from_str("authentication failed: status=").concat(
                        profile.user_info.status.as_str(),
                    ),
                ),
            )
        } else {
            Ok(())
        }
    }

    /// The extension of live channel URLs for this account.
    pub fn channel_extension(&self, user: &XtreamUserProfile) -> (ext: String)
        ensures
            ext@ == channel_extension(
                self.spec_config().preferred_format,
                user.allowed_output_formats@.map_values(|f: String| f@),
            ),
    {
        effective_channel_extension(
            self.config.preferred_format,
            user.allowed_output_formats.as_slice(),
        )
    }

    /// Attaches to every channel its live stream URL with the given extension.
    pub fn attach_channel_urls(&self, channels: &mut Vec<XtreamChannel>, extension: &str)
        ensures
            final(channels)@.len() == old(channels)@.len(),
            forall|i: int|
                0 <= i < old(channels)@.len() ==> {
                    let c = #[trigger] final(channels)@[i];
                    let o = old(channels)@[i];
                    &&& url_is(
                        c.url,
                        self.spec_stream_url(StreamType::Channel, o.stream_id as int, extension@),
                    )
                    &&& c == XtreamChannel { url: c.url, ..o }
                },
    {
        let mut i: usize = 0;
        while i < channels.len()
            invariant
                i <= channels@.len(),
                channels@.len() == old(channels)@.len(),
                forall|j: int|
                    0 <= j < i ==> {
                        let c = #[trigger] channels@[j];
                        let o = old(channels)@[j];
                        &&& url_is(
                            c.url,
                            self.spec_stream_url(
                                StreamType::Channel,
                                o.stream_id as int,
                                extension@,
                            ),
                        )
                        &&& c == XtreamChannel { url: c.url, ..o }
                    },
                forall|j: int| i <= j < channels@.len() ==> channels@[j] == old(channels)@[j],
            decreases channels@.len() - i,
        {
            let url = self.stream_url(StreamType::Channel, channels[i].stream_id, extension);
            channels[i].url = Some(url);
            i = i + 1;
        }
    }

    /// Attaches to every movie its stream URL, with the movie's container
    /// extension (`mp4` when none is given).
    pub fn attach_movie_urls(&self, movies: &mut Vec<XtreamMovieListing>)
        ensures
            final(movies)@.len() == old(movies)@.len(),
            forall|i: int|
                0 <= i < old(movies)@.len() ==> {
                    let m = #[trigger] final(movies)@[i];
                    let o = old(movies)@[i];
                    &&& url_is(
                        m.url,
                        self.spec_stream_url(
                            StreamType::Movie,
                            o.stream_id as int,
                            container_or_mp4(o.container_extension),
                        ),
                    )
                    &&& m == XtreamMovieListing { url: m.url, ..o }
                },
    {
        let mut i: usize = 0;
        while i < movies.len()
            invariant
                i <= movies@.len(),
                movies@.len() == old(movies)@.len(),
                forall|j: int|
                    0 <= j < i ==> {
                        let m = #[trigger] movies@[j];
                        let o = old(movies)@[j];
                        &&& url_is(
                            m.url,
                            self.spec_stream_url(
                                StreamType::Movie,
                                o.stream_id as int,
                                container_or_mp4(o.container_extension),
                            ),
                        )
                        &&& m == XtreamMovieListing { url: m.url, ..o }
                    },
                forall|j: int| i <= j < movies@.len() ==> movies@[j] == old(movies)@[j],
            decreases movies@.len() - i,
        {
            let url = self.stream_url(
                StreamType::Movie,
                movies[i].stream_id,
                container_ext(&movies[i].container_extension),
            );
            movies[i].url = Some(url);
            i = i + 1;
        }
    }

    /// Completes a `get_vod_info` answer: a movie without `info` is not
    /// found; otherwise the stream URL of its `movie_data` is attached.
    pub fn finish_vod_info(&self, vod_id: i64, movie: &mut XtreamMovie) -> (done: Result<(), XtreamError>)
        ensures
            done is Ok <==> old(movie).info is Some,
            done is Err ==> (done->Err_0 matches XtreamError::NotFound(m) && m@ == "movie "@
                + int_decimal(vod_id as int) + " not found"@),
            done is Err ==> *final(movie) == *old(movie),
            done is Ok ==> match old(movie).movie_data {
                Some(data) => url_is(
                    final(movie).url,
                    self.spec_stream_url(
                        StreamType::Movie,
                        data.stream_id as int,
                        container_or_mp4(data.container_extension),
                    ),
                ) && *final(movie) == XtreamMovie { url: final(movie).url, ..*old(movie) },
                None => *final(movie) == *old(movie),
            },
    {
        if movie.info.is_none() {
            let mut text = String::from_str("movie ");
            let id = i64_decimal(vod_id);
            text.append(id.as_str());
            text.append(" not found");
            return Err(XtreamError::NotFound(text));
        }
        let url = match &movie.movie_data {
            Some(data) => Some(
                self.stream_url(
                    StreamType::Movie,
                    data.stream_id,
                    container_ext(&data.container_extension),
                ),
            ),
            None => None,
        };
        if url.is_some() {
            movie.url = url;
        }
        Ok(())
    }

    /// Completes the `info` of a `get_series_info` answer: a series without
    /// info or without a name is not found; otherwise its `series_id` is set.
    pub fn finish_series_info(series_id: i64, info: &mut Option<XtreamShowInfo>) -> (done: Result<
        (),
        XtreamError,
    >)
        ensures
            done is Ok <==> (*old(info) is Some && (*old(info))->0.name is Some),
            done is Err ==> (done->Err_0 matches XtreamError::NotFound(m) && m@ == "series "@
                + int_decimal(series_id as int) + " not found"@),
            done is Err ==> *final(info) == *old(info),
            done is Ok ==> *final(info) == Some(
                XtreamShowInfo { series_id: Some(series_id), ..(*old(info))->0 },
            ),
    {
        let found = match info {
            Some(i) => i.name.is_some(),
            None => false,
        };
        if !found {
            let mut text = String::from_str("series ");
            let id = i64_decimal(series_id);
            text.append(id.as_str());
            text.append(" not found");
            return Err(XtreamError::NotFound(text));
        }
        match info {
            Some(i) => {
                i.series_id = Some(series_id);
            },
            None => {},
        }
        Ok(())
    }

    /// Attaches to every episode whose id reads as an integer its stream URL,
    /// with the episode's container extension (`mp4` when none is given).
    pub fn attach_episode_urls(&self, episodes: &mut Vec<XtreamEpisode>)
        ensures
            final(episodes)@.len() == old(episodes)@.len(),
            forall|i: int|
                0 <= i < old(episodes)@.len() ==> {
                    let e = #[trigger] final(episodes)@[i];
                    let o = old(episodes)@[i];
                    match episode_id_value(o.id) {
                        Some(id) => url_is(
                            e.url,
                            self.spec_stream_url(
                                StreamType::Episode,
                                id as int,
                                container_or_mp4(o.container_extension),
                            ),
                        ) && e == XtreamEpisode { url: e.url, ..o },
                        None => e == o,
                    }
                },
    {
        let mut i: usize = 0;
        while i < episodes.len()
            invariant
                i <= episodes@.len(),
                episodes@.len() == old(episodes)@.len(),
                forall|j: int|
                    0 <= j < i ==> {
                        let e = #[trigger] episodes@[j];
                        let o = old(episodes)@[j];
                        match episode_id_value(o.id) {
                            Some(id) => url_is(
                                e.url,
                                self.spec_stream_url(
                                    StreamType::Episode,
                                    id as int,
                                    container_or_mp4(o.container_extension),
                                ),
                            ) && e == XtreamEpisode { url: e.url, ..o },
                            None => e == o,
                        }
                    },
                forall|j: int| i <= j < episodes@.len() ==> episodes@[j] == old(episodes)@[j],
            decreases episodes@.len() - i,
        {
            match ep_id_as_i64(&episodes[i]) {
                Some(id) => {
                    let url = self.stream_url(
                        StreamType::Episode,
                        id,
                        container_ext(&episodes[i].container_extension),
                    );
                    episodes[i].url = Some(url);
                },
                None => {},
            }
            i = i + 1;
        }
    }
}

/// The profile that the last successful authentication returned, kept so
/// that later calls needing the account do not authenticate again.
#[derive(Debug, Clone)]
pub struct ProfileCache {
    profile: Option<XtreamProfile>,
}

impl ProfileCache {
    /// The cached profile, if any.
    pub closed spec fn spec_profile(&self) -> Option<XtreamProfile> {
        self.profile
    }

    /// An empty cache.
    pub fn new() -> (cache: Self)
        ensures
            cache.spec_profile() is None,
    {
        ProfileCache { profile: None }
    }

    /// Keeps `profile`, replacing any earlier one.
    pub fn store(&mut self, profile: XtreamProfile)
        ensures
            final(self).spec_profile() == Some(profile),
    {
        self.profile = Some(profile);
    }

    /// The cached profile, if authentication has succeeded before.
    pub fn profile(&self) -> (cached: Option<&XtreamProfile>)
        ensures
            match cached {
                Some(p) => self.spec_profile() == Some(*p),
                None => self.spec_profile() is None,
            },
    {
        match &self.profile {
            Some(p) => Some(p),
            None => None,
        }
    }

    /// The account part of the cached profile, if any.
    pub fn user(&self) -> (cached: Option<&XtreamUserProfile>)
        ensures
            match cached {
                Some(u) => self.spec_profile() is Some && self.spec_profile()->0.user_info == *u,
                None => self.spec_profile() is None,
            },
    {
        match &self.profile {
            Some(p) => Some(&p.user_info),
            None => None,
        }
    }
}

/// Cache law: a lookup after storing a profile gives back exactly that
/// profile, and its account part, whatever the cache held before.
pub proof fn lemma_cache_returns_stored(after: ProfileCache, profile: XtreamProfile)
    requires
        after.spec_profile() == Some(profile),
    ensures
        after.spec_profile() is Some,
        after.spec_profile()->0 == profile,
        after.spec_profile()->0.user_info == profile.user_info,
{
}

/// Decodes the base64 titles and descriptions of a short EPG in place.
pub fn decode_short_epg(epg: &mut XtreamShortEpg)
    ensures
        final(epg).epg_listings@.len() == old(epg).epg_listings@.len(),
        forall|i: int|
            0 <= i < old(epg).epg_listings@.len() ==> {
                let l = #[trigger] final(epg).epg_listings@[i];
                let o = old(epg).epg_listings@[i];
                &&& opt_text(l.title) == decoded_field(o.title)
                &&& opt_text(l.description) == decoded_field(o.description)
                &&& l == XtreamEpgListing { title: l.title, description: l.description, ..o }
            },
{
    let mut i: usize = 0;
    while i < epg.epg_listings.len()
        invariant
            i <= epg.epg_listings@.len(),
            epg.epg_listings@.len() == old(epg).epg_listings@.len(),
            forall|j: int|
                0 <= j < i ==> {
                    let l = #[trigger] epg.epg_listings@[j];
                    let o = old(epg).epg_listings@[j];
                    &&& opt_text(l.title) == decoded_field(o.title)
                    &&& opt_text(l.description) == decoded_field(o.description)
                    &&& l == XtreamEpgListing { title: l.title, description: l.description, ..o }
                },
            forall|j: int|
                i <= j < epg.epg_listings@.len() ==> epg.epg_listings@[j]
                    == old(epg).epg_listings@[j],
        decreases epg.epg_listings@.len() - i,
    {
        let title = decode_epg_field(&epg.epg_listings[i].title);
        let description = decode_epg_field(&epg.epg_listings[i].description);
        epg.epg_listings[i].title = title;
        epg.epg_listings[i].description = description;
        i = i + 1;
    }
}

/// Decodes the base64 titles and descriptions of a full EPG in place.
pub fn decode_full_epg(epg: &mut XtreamFullEpg)
    ensures
        final(epg).epg_listings@.len() == old(epg).epg_listings@.len(),
        forall|i: int|
            0 <= i < old(epg).epg_listings@.len() ==> {
                let l = #[trigger] final(epg).epg_listings@[i];
                let o = old(epg).epg_listings@[i];
                &&& opt_text(l.title) == decoded_field(o.title)
                &&& opt_text(l.description) == decoded_field(o.description)
                &&& l == XtreamFullEpgListing { title: l.title, description: l.description, ..o }
            },
{
    let mut i: usize = 0;
    while i < epg.epg_listings.len()
        invariant
            i <= epg.epg_listings@.len(),
            epg.epg_listings@.len() == old(epg).epg_listings@.len(),
            forall|j: int|
                0 <= j < i ==> {
                    let l = #[trigger] epg.epg_listings@[j];
                    let o = old(epg).epg_listings@[j];
                    &&& opt_text(l.title) == decoded_field(o.title)
                    &&& opt_text(l.description) == decoded_field(o.description)
                    &&& l == XtreamFullEpgListing {
                        title: l.title,
                        description: l.description,
                        ..o
                    }
                },
            forall|j: int|
                i <= j < epg.epg_listings@.len() ==> epg.epg_listings@[j]
                    == old(epg).epg_listings@[j],
        decreases epg.epg_listings@.len() - i,
    {
        let title = decode_epg_field(&epg.epg_listings[i].title);
        let description = decode_epg_field(&epg.epg_listings[i].description);
        epg.epg_listings[i].title = title;
        epg.epg_listings[i].description = description;
        i = i + 1;
    }
}

} // verus!
