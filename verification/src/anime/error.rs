//! Errors of the anime module.

use vstd::prelude::*;
use crate::ffmpeg::FFmpegError;
use crate::request::token::TokenError;

verus! {

/// Why an [`EpisodeDetail`](super::episode_detail::EpisodeDetail) could not be built.
#[derive(Debug, PartialEq, Eq)]
pub enum EpisodeDetailBuildError {
    /// The request for the episode's information failed; the message says how.
    Request(String),
    /// Any other reason, in words.
    Plain(String),
}

/// Why downloading an episode failed.
#[derive(Debug, PartialEq, Eq)]
pub enum AnimeDownloadError {
    /// A URL could not be parsed; the message says why.
    UrlParseError(String),
    /// An HTTP request failed; the message says why.
    WreqError(String),
    /// No device id had been obtained.
    DeviceIdDidNotExist,
    /// The site refused access to the episode.
    VerifyUserPermissionError(TokenError),
    /// Only VIP downloads are configured, but the account is not VIP.
    SetOnlyVipButNot,
    /// The advertisement was still being served after every retry.
    WaitAdsTimeout,
    /// The site answered with an error message.
    Request(String),
    /// A playlist could not be parsed; the parser's message.
    M3u8Parse(String),
    /// ffmpeg failed.
    FFmpeg(FFmpegError),
    /// The file system failed; the message says how.
    Io(String),
    /// The episode's details could not be built.
    EpisodeDetailBuild(EpisodeDetailBuildError),
    /// Any other reason, in words.
    Plain(String),
}

} // verus!
