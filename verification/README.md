# crispy-xtream

A client for Xtream Codes compatible IPTV servers, in two parts.

- `src/` is the library, written in Verus with its contracts proved:
  - `url`: stream, timeshift, XMLTV and player-API URLs;
  - `parse`: transparent decoding of base64 EPG fields;
  - `fetch`: what each HTTP status means, when to wait and retry after a
    rate limit, and what a response body turns into;
  - `client`: credentials, configuration, the API calls, the profile cache
    and the completion of responses (stream URLs, not-found checks, EPG
    decoding);
  - `error`, `types`, `text`: errors, response models and character-level
    helpers.
- `app/` is the async client around it: it sends the requests with
  `reqwest`, sleeps with `tokio`, parses JSON with `serde`, and asks the
  library what to do at each step.

`tests/` runs the library on concrete inputs.

There is no conversion from `XtreamError` into
`crispy_iptv_types::IptvError`, and `crispy_iptv_types` is not re-exported:
that crate is not available from the registry this crate's dependencies
come from.
