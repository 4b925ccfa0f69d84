//! URL construction for Xtream Codes streams and API calls.
//!
//! Stream, timeshift and XMLTV URLs are plain text templates; API URLs are
//! built with the `url` crate, which normalises the base and encodes the
//! query pairs.

use crate::text::{
    int_decimal, lemma_strip_trailing_idempotent, lemma_strip_trailing_run, nat_decimal, owned,
    push_char, push_i64_decimal, push_u64_decimal, str_eq, strip_trailing, trim_trailing_slashes,
};
use crate::types::{StreamFormat, StreamType};
use vstd::prelude::*;
use vstd::string::StringExecFns;

verus! {

/// The views of a list of key/value pairs.
pub open spec fn pair_views(pairs: Seq<(String, String)>) -> Seq<(Seq<char>, Seq<char>)> {
    pairs.map_values(|p: (String, String)| (p.0@, p.1@))
}

/// The views of a list of borrowed key/value pairs.
pub open spec fn str_pair_views(pairs: Seq<(&str, &str)>) -> Seq<(Seq<char>, Seq<char>)> {
    pairs.map_values(|p: (&str, &str)| (p.0@, p.1@))
}

/// The view of an optional string.
pub open spec fn opt_text(s: Option<String>) -> Option<Seq<char>> {
    match s {
        Some(t) => Some(t@),
        None => None,
    }
}

/// The text that the `url` crate produces when it parses `input` as an
/// absolute URL and then appends `pairs` to its query in
/// `application/x-www-form-urlencoded` form; `None` when `input` does not parse.
pub uninterp spec fn url_with_query(
    input: Seq<char>,
    pairs: Seq<(Seq<char>, Seq<char>)>,
) -> Option<Seq<char>>;

/// Parses `input` with `url::Url::parse`, appends every pair with
/// `query_pairs_mut().extend_pairs(..)` and returns the serialization.
/// The contract names that result (`url_with_query`): it claims only that
/// the outcome is a function of the input text and the pairs.
#[verifier::external_body]
fn serialize_url_with_query(input: &str, pairs: &Vec<(String, String)>) -> (url: Option<String>)
    ensures
        opt_text(url) == url_with_query(input@, pair_views(pairs@)),
{
    let mut url = ::url::Url::parse(input).ok()?;
    url.query_pairs_mut().extend_pairs(pairs.iter());
    Some(url.into())
}

// ---------------------------------------------------------------------------
// Specifications
// ---------------------------------------------------------------------------

/// `{base}/{segment}/{username}/{password}/{stream_id}.{ext}` with the
/// trailing slashes of `base` removed.
pub open spec fn stream_url_text(
    base: Seq<char>,
    username: Seq<char>,
    password: Seq<char>,
    stream_type: StreamType,
    stream_id: int,
    extension: Seq<char>,
) -> Seq<char> {
    strip_trailing(base, '/') + seq!['/'] + stream_type.spec_path_segment() + seq!['/']
        + username + seq!['/'] + password + seq!['/'] + int_decimal(stream_id) + seq!['.']
        + extension
}

/// `{base}/timeshift/{username}/{password}/{duration}/{start}/{stream_id}.ts`.
pub open spec fn timeshift_url_text(
    base: Seq<char>,
    username: Seq<char>,
    password: Seq<char>,
    stream_id: int,
    duration_minutes: nat,
    start: Seq<char>,
) -> Seq<char> {
    strip_trailing(base, '/') + "/timeshift/"@ + username + seq!['/'] + password + seq!['/']
        + nat_decimal(duration_minutes) + seq!['/'] + start + seq!['/'] + int_decimal(stream_id)
        + ".ts"@
}

/// `{base}/xmltv.php?username={username}&password={password}`.
pub open spec fn xmltv_url_text(base: Seq<char>, username: Seq<char>, password: Seq<char>) -> Seq<
    char,
> {
    strip_trailing(base, '/') + "/xmltv.php?username="@ + username + "&password="@ + password
}

/// The query pairs of an API call: credentials, action, then the extra pairs.
pub open spec fn api_pairs(
    username: Seq<char>,
    password: Seq<char>,
    action: Seq<char>,
    extra: Seq<(Seq<char>, Seq<char>)>,
) -> Seq<(Seq<char>, Seq<char>)> {
    seq![("username"@, username), ("password"@, password), ("action"@, action)] + extra
}

/// The player API URL: `{base}/player_api.php` parsed by the `url` crate,
/// with the pairs of `api_pairs` appended to its query.
pub open spec fn api_url_text(
    base: Seq<char>,
    username: Seq<char>,
    password: Seq<char>,
    action: Seq<char>,
    extra: Seq<(Seq<char>, Seq<char>)>,
) -> Option<Seq<char>> {
    url_with_query(
        strip_trailing(base, '/') + "/player_api.php"@,
        api_pairs(username, password, action, extra),
    )
}

/// The extension to use for live channels: the preferred one when the
/// allowed list is empty or contains it, otherwise the first allowed one.
pub open spec fn channel_extension(preferred: StreamFormat, allowed: Seq<Seq<char>>) -> Seq<char> {
    if allowed.len() == 0 || allowed.contains(preferred.spec_extension()) {
        preferred.spec_extension()
    } else {
        allowed[0]
    }
}

/// Channel format law: the preferred extension is kept when the allowed
/// list is empty or names it; otherwise the first allowed format is used.
/// Either way the result is the preferred extension or an allowed one.
pub proof fn lemma_channel_extension_choice(preferred: StreamFormat, allowed: Seq<Seq<char>>)
    ensures
        allowed.len() == 0 ==> channel_extension(preferred, allowed) == preferred.spec_extension(),
        (exists|i: int| 0 <= i < allowed.len() && allowed[i] == preferred.spec_extension())
            ==> channel_extension(preferred, allowed) == preferred.spec_extension(),
        (allowed.len() > 0 && forall|i: int|
            0 <= i < allowed.len() ==> allowed[i] != preferred.spec_extension()) ==> channel_extension(
            preferred,
            allowed,
        ) == allowed[0],
        channel_extension(preferred, allowed) == preferred.spec_extension() || (allowed.len() > 0
            && channel_extension(preferred, allowed) == allowed[0]),
{
    if allowed.len() > 0 && allowed.contains(preferred.spec_extension()) {
        let i = choose|i: int| 0 <= i < allowed.len() && allowed[i] == preferred.spec_extension();
    }
}

/// Base URL law: trailing slashes of the base URL change none of the URLs,
/// and neither does removing them first (as `XtreamCredentials::new` does).
pub proof fn lemma_base_slashes_ignored(
    base: Seq<char>,
    slashes: Seq<char>,
    username: Seq<char>,
    password: Seq<char>,
    stream_type: StreamType,
    stream_id: int,
    extension: Seq<char>,
    duration_minutes: nat,
    start: Seq<char>,
    action: Seq<char>,
    extra: Seq<(Seq<char>, Seq<char>)>,
)
    requires
        forall|i: int| 0 <= i < slashes.len() ==> slashes[i] == '/',
    ensures
        stream_url_text(base + slashes, username, password, stream_type, stream_id, extension)
            == stream_url_text(base, username, password, stream_type, stream_id, extension),
        timeshift_url_text(base + slashes, username, password, stream_id, duration_minutes, start)
            == timeshift_url_text(base, username, password, stream_id, duration_minutes, start),
        xmltv_url_text(base + slashes, username, password) == xmltv_url_text(
            base,
            username,
            password,
        ),
        api_url_text(base + slashes, username, password, action, extra) == api_url_text(
            base,
            username,
            password,
            action,
            extra,
        ),
        stream_url_text(
            strip_trailing(base, '/'),
            username,
            password,
            stream_type,
            stream_id,
            extension,
        ) == stream_url_text(base, username, password, stream_type, stream_id, extension),
        timeshift_url_text(
            strip_trailing(base, '/'),
            username,
            password,
            stream_id,
            duration_minutes,
            start,
        ) == timeshift_url_text(base, username, password, stream_id, duration_minutes, start),
        xmltv_url_text(strip_trailing(base, '/'), username, password) == xmltv_url_text(
            base,
            username,
            password,
        ),
        api_url_text(strip_trailing(base, '/'), username, password, action, extra)
            == api_url_text(base, username, password, action, extra),
{
    lemma_strip_trailing_run(base, slashes, '/');
    lemma_strip_trailing_idempotent(base, '/');
}

// ---------------------------------------------------------------------------
// Builders
// ---------------------------------------------------------------------------

/// Build a stream URL.
///
/// Format: `{base}/{type_segment}/{username}/{password}/{stream_id}.{ext}`
pub fn build_stream_url(
    base_url: &str,
    username: &str,
    password: &str,
    stream_type: StreamType,
    stream_id: i64,
    extension: &str,
) -> (url: String)
    ensures
        url@ == stream_url_text(
            base_url@,
            username@,
            password@,
            stream_type,
            stream_id as int,
            extension@,
        ),
{
    let mut url = trim_trailing_slashes(base_url);
    push_char(&mut url, '/');
    url.append(stream_type.path_segment());
    push_char(&mut url, '/');
    url.append(username);
    push_char(&mut url, '/');
    url.append(password);
    push_char(&mut url, '/');
    push_i64_decimal(&mut url, stream_id);
    push_char(&mut url, '.');
    url.append(extension);
    url
}

/// Build a timeshift / catchup URL for a live channel.
///
/// Format: `{base}/timeshift/{username}/{password}/{duration}/{start}/{stream_id}.ts`
pub fn build_timeshift_url(
    base_url: &str,
    username: &str,
    password: &str,
    stream_id: i64,
    duration_minutes: u32,
    start: &str,
) -> (url: String)
    ensures
        url@ == timeshift_url_text(
            base_url@,
            username@,
            password@,
            stream_id as int,
            duration_minutes as nat,
            start@,
        ),
{
    let mut url = trim_trailing_slashes(base_url);
    url.append("/timeshift/");
    url.append(username);
    push_char(&mut url, '/');
    url.append(password);
    push_char(&mut url, '/');
    push_u64_decimal(&mut url, duration_minutes as u64);
    push_char(&mut url, '/');
    url.append(start);
    push_char(&mut url, '/');
    push_i64_decimal(&mut url, stream_id);
    url.append(".ts");
    url
}

/// Build the XMLTV EPG URL.
///
/// Format: `{base}/xmltv.php?username={user}&password={pass}`
pub fn build_xmltv_url(base_url: &str, username: &str, password: &str) -> (url: String)
    ensures
        url@ == xmltv_url_text(base_url@, username@, password@),
{
    let mut url = trim_trailing_slashes(base_url);
    url.append("/xmltv.php?username=");
    url.append(username);
    url.append("&password=");
    url.append(password);
    url
}

/// The API endpoint (`{base}/player_api.php`) and its query pairs.
fn api_request_parts(
    base_url: &str,
    username: &str,
    password: &str,
    action: &str,
    extra_params: &[(&str, &str)],
) -> (parts: (String, Vec<(String, String)>))
    ensures
        parts.0@ == strip_trailing(base_url@, '/') + "/player_api.php"@,
        pair_views(parts.1@) == api_pairs(
            username@,
            password@,
            action@,
            str_pair_views(extra_params@),
        ),
{
    let mut endpoint = trim_trailing_slashes(base_url);
    endpoint.append("/player_api.php");
    let mut pairs: Vec<(String, String)> = Vec::new();
    pairs.push((String::from_str("username"), owned(username)));
    pairs.push((String::from_str("password"), owned(password)));
    pairs.push((String::from_str("action"), owned(action)));
    let ghost head = seq![("username"@, username@), ("password"@, password@), ("action"@, action@)];
    assert(pair_views(pairs@) =~= head);
    let mut i: usize = 0;
    while i < extra_params.len()
        invariant
            i <= extra_params@.len(),
            pairs@.len() == 3 + i,
            pair_views(pairs@) =~= head + str_pair_views(extra_params@).subrange(0, i as int),
        decreases extra_params@.len() - i,
    {
        let (key, value) = extra_params[i];
        let ghost before = pairs@;
        let k = owned(key);
        let v = owned(value);
        pairs.push((k, v));
        assert(pairs@ == before.push((k, v)));
        assert(pair_views(pairs@) =~= pair_views(before).push((key@, value@)));
        assert(str_pair_views(extra_params@)[i as int] == (key@, value@));
        assert(str_pair_views(extra_params@).subrange(0, i + 1) =~= str_pair_views(
            extra_params@,
        ).subrange(0, i as int).push((key@, value@)));
        i = i + 1;
    }
    assert(str_pair_views(extra_params@).subrange(0, extra_params@.len() as int)
        =~= str_pair_views(extra_params@));
    (endpoint, pairs)
}

/// The player API URL with additional query parameters, or `None` when the
/// base URL does not parse as an absolute URL.
pub fn try_build_api_url_with_params(
    base_url: &str,
    username: &str,
    password: &str,
    action: &str,
    extra_params: &[(&str, &str)],
) -> (url: Option<String>)
    ensures
        opt_text(url) == api_url_text(
            base_url@,
            username@,
            password@,
            action@,
            str_pair_views(extra_params@),
        ),
{
    let (endpoint, pairs) = api_request_parts(base_url, username, password, action, extra_params);
    let probe = serialize_url_with_query(endpoint.as_str(), &pairs);
    if probe.is_some() {
        Some(build_api_url_with_params(base_url, username, password, action, extra_params))
    } else {
        None
    }
}

/// Build the player API URL with additional query parameters.
///
/// The base URL must parse as an absolute URL.
pub fn build_api_url_with_params(
    base_url: &str,
    username: &str,
    password: &str,
    action: &str,
    extra_params: &[(&str, &str)],
) -> (url: String)
    requires
        api_url_text(
            base_url@,
            username@,
            password@,
            action@,
            str_pair_views(extra_params@),
        ) is Some,
    ensures
        api_url_text(base_url@, username@, password@, action@, str_pair_views(extra_params@))
            == Some(url@),
{
    let (endpoint, pairs) = api_request_parts(base_url, username, password, action, extra_params);
    match serialize_url_with_query(endpoint.as_str(), &pairs) {
        Some(url) => url,
        None => {
            assert(false);
            String::new()
        },
    }
}

/// The player API URL for an action, or `None` when the base URL does not
/// parse as an absolute URL.
pub fn try_build_api_url(base_url: &str, username: &str, password: &str, action: &str) -> (url:
    Option<String>)
    ensures
        opt_text(url) == api_url_text(base_url@, username@, password@, action@, seq![]),
{
    let no_params: [(&str, &str); 0] = [];
    let (endpoint, pairs) = api_request_parts(base_url, username, password, action, &no_params);
    assert(str_pair_views(no_params@) =~= seq![]);
    let probe = serialize_url_with_query(endpoint.as_str(), &pairs);
    if probe.is_some() {
        Some(build_api_url(base_url, username, password, action))
    } else {
        None
    }
}

/// Build the player API URL for a given action.
///
/// Format: `{base}/player_api.php?username={user}&password={pass}&action={action}`
pub fn build_api_url(base_url: &str, username: &str, password: &str, action: &str) -> (url: String)
    requires
        api_url_text(base_url@, username@, password@, action@, seq![]) is Some,
    ensures
        api_url_text(base_url@, username@, password@, action@, seq![]) == Some(url@),
{
    let no_params: [(&str, &str); 0] = [];
    assert(str_pair_views(no_params@) =~= seq![]);
    build_api_url_with_params(base_url, username, password, action, &no_params)
}

/// Determine the effective format extension for a channel stream.
///
/// If the user's preferred format is in `allowed_formats`, use it.
/// Otherwise fall back to the first allowed format, or the preferred format
/// if the allowed list is empty (some servers return an empty array).
pub fn effective_channel_extension(preferred: StreamFormat, allowed_formats: &[String]) -> (ext:
    String)
    ensures
        ext@ == channel_extension(
            preferred,
            allowed_formats@.map_values(|f: String| f@),
        ),
        allowed_formats@.len() == 0 ==> ext@ == preferred.spec_extension(),
        (allowed_formats@.len() > 0 && forall|i: int|
            0 <= i < allowed_formats@.len() ==> allowed_formats@[i]@ != preferred.spec_extension())
            ==> ext@ == allowed_formats@[0]@,
        (exists|i: int|
            0 <= i < allowed_formats@.len() && allowed_formats@[i]@ == preferred.spec_extension())
            ==> ext@ == preferred.spec_extension(),
{
    let pref_ext = preferred.extension();
    let ghost allowed = allowed_formats@.map_values(|f: String| f@);
    if allowed_formats.len() == 0 {
        return owned(pref_ext);
    }
    let mut i: usize = 0;
    while i < allowed_formats.len()
        invariant
            i <= allowed_formats@.len(),
            allowed == allowed_formats@.map_values(|f: String| f@),
            pref_ext@ == preferred.spec_extension(),
            forall|j: int| 0 <= j < i ==> allowed[j] != pref_ext@,
        decreases allowed_formats@.len() - i,
    {
        if str_eq(allowed_formats[i].as_str(), pref_ext) {
            assert(allowed[i as int] == pref_ext@);
            return owned(pref_ext);
        }
        i = i + 1;
    }
    assert(!allowed.contains(pref_ext@));
    assert forall|i: int| 0 <= i < allowed_formats@.len() implies allowed_formats@[i]@
        != preferred.spec_extension() by {
        assert(allowed[i] == allowed_formats@[i]@);
    }
    owned(allowed_formats[0].as_str())
}

} // verus!
