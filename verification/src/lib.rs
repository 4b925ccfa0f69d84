//! Xtream Codes API client logic: URL construction, response
//! post-processing, EPG text decoding and the decisions of the HTTP
//! exchange (status handling, rate-limit retries, body checks).

pub mod client;
pub mod error;
pub mod fetch;
pub mod parse;
pub mod text;
pub mod types;
pub mod url;

pub use client::{XtreamClient, XtreamClientConfig, XtreamCredentials};
pub use error::XtreamError;
pub use types::{
    EpisodeId, StreamFormat, StreamType, XtreamCategory, XtreamChannel, XtreamEpgListing, XtreamEpisode,
    XtreamEpisodeInfo, XtreamFullEpg, XtreamFullEpgListing, XtreamMovie, XtreamMovieData,
    XtreamMovieInfo, XtreamMovieListing, XtreamProfile, XtreamServerInfo, XtreamShortEpg,
    XtreamShowInfo, XtreamShowListing, XtreamUserProfile,
};
