//! The decisions of an episode download, as a state machine.
//!
//! The caller performs each [`DownloadAction`] (a request, a wait, a file
//! operation) and reports its outcome as a [`DownloadEvent`];
//! [`DownloadMachine::step`] decides what comes next. The sequence follows the
//! site's protocol: device id, access token, session unlocking, the
//! advertisement for accounts without VIP, the check that no advertisement is
//! left (at most ten times), then playlists, keys, segments, merge and copy.

use vstd::prelude::*;
use crate::anime::episode_detail::{file_name_of, EpisodeDetail, EpisodeDetailView};
use crate::anime::error::AnimeDownloadError;
use crate::anime::playlist::{
    chosen_variant, key_uris, key_uris_of, m3u8_master_variants, m3u8_media_segments,
    parse_master_playlist, parse_media_playlist, select_variant, segments_view, variants_view,
    Segment, Variant,
};
use crate::config::{cap_at, capped, resolution_height, Config, MAX_MULTI_DOWNLOADING_SEGMENT};
use crate::ffmpeg::FFmpegError;
use crate::util::{join_each, join_url, joined_each, sanitized, tasks_view, url_joined, FileTask};

verus! {

/// Where a download stands.
#[derive(Debug, Clone, Copy, PartialEq, Eq, Structural)]
pub enum DownloadStage {
    CheckingFfmpeg,
    FetchingDeviceId,
    GainingAccess,
    /// Unlock, check the lock, unlock, unlock: `step` of them are done.
    PreparingSession { step: u32 },
    StartingAd,
    WaitingAd,
    SkippingAd,
    StartingVideo,
    /// Token check number `attempt` (from 0) for a served advertisement.
    CheckingNoAd { attempt: u32 },
    RetryWaiting { attempt: u32 },
    RetrySkippingAd { attempt: u32 },
    RetryStartingVideo { attempt: u32 },
    GettingPlaylist,
    FetchingMasterPlaylist,
    FetchingEpisodeDetail,
    MakingTempDir,
    FetchingMediaPlaylist,
    DownloadingKeys,
    DownloadingSegments,
    Merging,
    CopyingOut,
    Finished,
    Failed,
}

/// The number of token checks for a served advertisement before giving up.
pub const NO_AD_ATTEMPTS: u32 = 10;

/// Seconds to wait between two token checks.
pub const NO_AD_RETRY_SECONDS: u64 = 2;

/// What the caller reports after performing an action.
pub enum DownloadEvent {
    /// Whether ffmpeg is installed.
    FfmpegChecked { exists: bool },
    /// The action succeeded and gave nothing to decide on.
    Completed,
    /// The site granted a token.
    TokenGranted { vip: bool, time: u32 },
    /// The site named the master playlist.
    PlaylistReceived { src: String },
    /// The master playlist's bytes.
    MasterPlaylistReceived { bytes: Vec<u8> },
    /// The episode's details, and its directory exists.
    EpisodeDetailReceived { detail: EpisodeDetail },
    /// The media playlist's bytes.
    MediaPlaylistReceived { bytes: Vec<u8> },
}

/// What the caller is to do next.
#[derive(Debug)]
pub enum DownloadAction {
    /// Tell whether ffmpeg is installed.
    CheckFfmpeg,
    /// Fetch (or renew) the device id.
    FetchDeviceId,
    /// Request an access token.
    GainAccess { add_ad_id: bool },
    /// Unlock the session.
    Unlock,
    /// Check the session lock.
    CheckLock,
    /// Tell the site the advertisement starts.
    StartAd,
    /// Wait `seconds` seconds.
    Wait { seconds: u64 },
    /// Tell the site the advertisement ends.
    SkipAd,
    /// Tell the site the video starts.
    VideoStart,
    /// Ask where the master playlist is.
    GetPlaylist,
    /// Fetch the master playlist at `src`.
    FetchMasterPlaylist { src: String },
    /// Fetch the episode's details and make its directory.
    FetchEpisodeDetail,
    /// Make the temporary directory of the download.
    MakeTempDir,
    /// Fetch the media playlist at `url`.
    FetchMediaPlaylist { url: String },
    /// Download each key file from its URL into the temporary directory
    /// under its name, all at once, and then write the media playlist there
    /// as the manifest. A file whose URL did not resolve fails its own
    /// download with that error.
    DownloadKeys { files: Vec<FileTask> },
    /// Download each segment from its URL under its name, `concurrency` (the
    /// configured number, at most 5) at a time. A file whose URL did not resolve fails its own download with
    /// that error.
    DownloadSegments { files: Vec<FileTask>, concurrency: u32 },
    /// Merge the manifest into `file_name` with ffmpeg.
    Merge { file_name: String },
    /// Copy `file_name` into the directory `dir` below the download root,
    /// then remove the temporary file.
    CopyOut { dir: (String, String), file_name: String },
    /// The episode is downloaded.
    Finish,
    /// The download failed.
    Fail(AnimeDownloadError),
}

/// Why a download failed, as the machine sees it.
pub enum Failure {
    FfmpegMissing,
    NotVip,
    AdsTimeout,
    PlaylistParse(Seq<char>),
    UrlParse(Seq<char>),
    Plain(Seq<char>),
    Other,
}

/// The abstract value of a [`DownloadAction`].
pub enum ActionView {
    CheckFfmpeg,
    FetchDeviceId,
    GainAccess(bool),
    Unlock,
    CheckLock,
    StartAd,
    Wait(u64),
    SkipAd,
    VideoStart,
    GetPlaylist,
    FetchMasterPlaylist(Seq<char>),
    FetchEpisodeDetail,
    MakeTempDir,
    FetchMediaPlaylist(Seq<char>),
    DownloadKeys(Seq<(Result<Seq<char>, Seq<char>>, Seq<char>)>),
    DownloadSegments(Seq<(Result<Seq<char>, Seq<char>>, Seq<char>)>, u32),
    Merge(Seq<char>),
    CopyOut((Seq<char>, Seq<char>), Seq<char>),
    Finish,
    Fail(Failure),
}

/// The abstract value of a [`DownloadEvent`].
pub enum EventView {
    FfmpegChecked(bool),
    Completed,
    TokenGranted(bool, u32),
    PlaylistReceived(Seq<char>),
    MasterPlaylistReceived(Seq<u8>),
    EpisodeDetailReceived(EpisodeDetailView),
    MediaPlaylistReceived(Seq<u8>),
}

/// How the machine sees an error.
pub open spec fn failure_of(e: AnimeDownloadError) -> Failure {
    match e {
        AnimeDownloadError::FFmpeg(FFmpegError::FFmpegNotExist) => Failure::FfmpegMissing,
        AnimeDownloadError::SetOnlyVipButNot => Failure::NotVip,
        AnimeDownloadError::WaitAdsTimeout => Failure::AdsTimeout,
        AnimeDownloadError::M3u8Parse(m) => Failure::PlaylistParse(m@),
        AnimeDownloadError::UrlParseError(m) => Failure::UrlParse(m@),
        AnimeDownloadError::Plain(m) => Failure::Plain(m@),
        _ => Failure::Other,
    }
}

impl View for DownloadAction {
    type V = ActionView;

    open spec fn view(&self) -> ActionView {
        match self {
            DownloadAction::CheckFfmpeg => ActionView::CheckFfmpeg,
            DownloadAction::FetchDeviceId => ActionView::FetchDeviceId,
            DownloadAction::GainAccess { add_ad_id } => ActionView::GainAccess(*add_ad_id),
            DownloadAction::Unlock => ActionView::Unlock,
            DownloadAction::CheckLock => ActionView::CheckLock,
            DownloadAction::StartAd => ActionView::StartAd,
            DownloadAction::Wait { seconds } => ActionView::Wait(*seconds),
            DownloadAction::SkipAd => ActionView::SkipAd,
            DownloadAction::VideoStart => ActionView::VideoStart,
            DownloadAction::GetPlaylist => ActionView::GetPlaylist,
            DownloadAction::FetchMasterPlaylist { src } => ActionView::FetchMasterPlaylist(src@),
            DownloadAction::FetchEpisodeDetail => ActionView::FetchEpisodeDetail,
            DownloadAction::MakeTempDir => ActionView::MakeTempDir,
            DownloadAction::FetchMediaPlaylist { url } => ActionView::FetchMediaPlaylist(url@),
            DownloadAction::DownloadKeys { files } => ActionView::DownloadKeys(tasks_view(files@)),
            DownloadAction::DownloadSegments { files, concurrency } => ActionView::DownloadSegments(
                tasks_view(files@),
                *concurrency,
            ),
            DownloadAction::Merge { file_name } => ActionView::Merge(file_name@),
            DownloadAction::CopyOut { dir, file_name } => ActionView::CopyOut((dir.0@, dir.1@), file_name@),
            DownloadAction::Finish => ActionView::Finish,
            DownloadAction::Fail(e) => ActionView::Fail(failure_of(*e)),
        }
    }
}

impl View for DownloadEvent {
    type V = EventView;

    open spec fn view(&self) -> EventView {
        match self {
            DownloadEvent::FfmpegChecked { exists } => EventView::FfmpegChecked(*exists),
            DownloadEvent::Completed => EventView::Completed,
            DownloadEvent::TokenGranted { vip, time } => EventView::TokenGranted(*vip, *time),
            DownloadEvent::PlaylistReceived { src } => EventView::PlaylistReceived(src@),
            DownloadEvent::MasterPlaylistReceived { bytes } => EventView::MasterPlaylistReceived(bytes@),
            DownloadEvent::EpisodeDetailReceived { detail } => EventView::EpisodeDetailReceived(detail@),
            DownloadEvent::MediaPlaylistReceived { bytes } => EventView::MediaPlaylistReceived(bytes@),
        }
    }
}

/// The abstract value of a [`DownloadMachine`].
pub struct MachineView {
    pub stage: DownloadStage,
    /// Whether the first token was a VIP one.
    pub vip: bool,
    /// Where the master playlist is.
    pub src: Seq<char>,
    /// The master playlist's variants.
    pub variants: Seq<(Seq<char>, Option<(u64, u64)>)>,
    /// The name of the downloaded file.
    pub file_name: Seq<char>,
    /// The episode's directory below the download root.
    pub dir: (Seq<char>, Seq<char>),
    /// The URI of the chosen variant, relative to `src`.
    pub variant_uri: Seq<char>,
    /// Where the media playlist is.
    pub media_src: Seq<char>,
    /// The media playlist's segment URIs.
    pub segment_uris: Seq<Seq<char>>,
}

/// A download that has not begun: it is about to check for ffmpeg and has
/// learnt nothing yet.
pub open spec fn initial_view() -> MachineView {
    MachineView {
        stage: DownloadStage::CheckingFfmpeg,
        vip: false,
        src: Seq::empty(),
        variants: Seq::empty(),
        file_name: Seq::empty(),
        dir: (Seq::empty(), Seq::empty()),
        variant_uri: Seq::empty(),
        media_src: Seq::empty(),
        segment_uris: Seq::empty(),
    }
}

/// The same machine at another stage.
pub open spec fn at(m: MachineView, stage: DownloadStage) -> MachineView {
    MachineView { stage, ..m }
}

/// The failed machine and its failure.
pub open spec fn fail(m: MachineView, f: Failure) -> (MachineView, ActionView) {
    (at(m, DownloadStage::Failed), ActionView::Fail(f))
}

/// The message for an event that does not fit the stage.
pub open spec fn unexpected_message() -> Seq<char> {
    "unexpected download event"@
}

/// The message for a master playlist without variants.
pub open spec fn no_variant_message() -> Seq<char> {
    "master playlist has no variant"@
}

/// The message for a chosen variant without resolution.
pub open spec fn no_height_message() -> Seq<char> {
    "it should have resolution"@
}

/// What follows the details of the episode: the chosen variant's media
/// playlist, under the file name that its height gives.
pub open spec fn after_detail(m: MachineView, d: EpisodeDetailView, c: Config) -> (MachineView, ActionView) {
    let target = resolution_height(c.download_resolution) as u64;
    if !c.lock_resolution && m.variants.len() == 0 {
        fail(m, Failure::Plain(no_variant_message()))
    } else {
        match chosen_variant(target, c.lock_resolution, m.variants) {
            Err(msg) => fail(m, Failure::Plain(msg)),
            Ok(v) => match v.1 {
                None => fail(m, Failure::Plain(no_height_message())),
                Some((_, h)) => (
                    MachineView {
                        stage: DownloadStage::MakingTempDir,
                        file_name: file_name_of(d, h as nat),
                        dir: (sanitized(d.name), sanitized(d.season)),
                        variant_uri: v.0,
                        ..m
                    },
                    ActionView::MakeTempDir,
                ),
            },
        }
    }
}

/// The next state and action of a download in state `m` that is told `e`,
/// under configuration `c`.
pub open spec fn transition(m: MachineView, e: EventView, c: Config) -> (MachineView, ActionView) {
    match (m.stage, e) {
        (DownloadStage::CheckingFfmpeg, EventView::FfmpegChecked(exists)) => if exists {
            (at(m, DownloadStage::FetchingDeviceId), ActionView::FetchDeviceId)
        } else {
            fail(m, Failure::FfmpegMissing)
        },
        (DownloadStage::FetchingDeviceId, EventView::Completed) => (
            at(m, DownloadStage::GainingAccess),
            ActionView::GainAccess(true),
        ),
        (DownloadStage::GainingAccess, EventView::TokenGranted(vip, _)) => (
            MachineView { stage: DownloadStage::PreparingSession { step: 0 }, vip, ..m },
            ActionView::Unlock,
        ),
        (DownloadStage::PreparingSession { step }, EventView::Completed) => if step == 0 {
            (at(m, DownloadStage::PreparingSession { step: 1 }), ActionView::CheckLock)
        } else if step == 1 {
            (at(m, DownloadStage::PreparingSession { step: 2 }), ActionView::Unlock)
        } else if step == 2 {
            (at(m, DownloadStage::PreparingSession { step: 3 }), ActionView::Unlock)
        } else if m.vip {
            (at(m, DownloadStage::StartingVideo), ActionView::VideoStart)
        } else if c.only_use_vip {
            fail(m, Failure::NotVip)
        } else {
            (at(m, DownloadStage::StartingAd), ActionView::StartAd)
        },
        (DownloadStage::StartingAd, EventView::Completed) => (
            at(m, DownloadStage::WaitingAd),
            ActionView::Wait(c.ads_time as u64),
        ),
        (DownloadStage::WaitingAd, EventView::Completed) => (
            at(m, DownloadStage::SkippingAd),
            ActionView::SkipAd,
        ),
        (DownloadStage::SkippingAd, EventView::Completed) => (
            at(m, DownloadStage::StartingVideo),
            ActionView::VideoStart,
        ),
        (DownloadStage::StartingVideo, EventView::Completed) => (
            at(m, DownloadStage::CheckingNoAd { attempt: 0 }),
            ActionView::GainAccess(false),
        ),
        (DownloadStage::CheckingNoAd { attempt }, EventView::TokenGranted(_, time)) => if time == 1 {
            (at(m, DownloadStage::GettingPlaylist), ActionView::GetPlaylist)
        } else {
            (at(m, DownloadStage::RetryWaiting { attempt }), ActionView::Wait(NO_AD_RETRY_SECONDS))
        },
        (DownloadStage::RetryWaiting { attempt }, EventView::Completed) => (
            at(m, DownloadStage::RetrySkippingAd { attempt }),
            ActionView::SkipAd,
        ),
        (DownloadStage::RetrySkippingAd { attempt }, EventView::Completed) => (
            at(m, DownloadStage::RetryStartingVideo { attempt }),
            ActionView::VideoStart,
        ),
        (DownloadStage::RetryStartingVideo { attempt }, EventView::Completed) => if attempt + 1
            < NO_AD_ATTEMPTS {
            (at(m, DownloadStage::CheckingNoAd { attempt: (attempt + 1) as u32 }), ActionView::GainAccess(false))
        } else {
            fail(m, Failure::AdsTimeout)
        },
        (DownloadStage::GettingPlaylist, EventView::PlaylistReceived(src)) => (
            MachineView { stage: DownloadStage::FetchingMasterPlaylist, src, ..m },
            ActionView::FetchMasterPlaylist(src),
        ),
        (DownloadStage::FetchingMasterPlaylist, EventView::MasterPlaylistReceived(bytes)) => match m3u8_master_variants(bytes) {
            Err(msg) => fail(m, Failure::PlaylistParse(msg)),
            Ok(vs) => (
                MachineView { stage: DownloadStage::FetchingEpisodeDetail, variants: vs, ..m },
                ActionView::FetchEpisodeDetail,
            ),
        },
        (DownloadStage::FetchingEpisodeDetail, EventView::EpisodeDetailReceived(d)) => after_detail(m, d, c),
        (DownloadStage::MakingTempDir, EventView::Completed) => match url_joined(m.src, m.variant_uri) {
            Err(e) => fail(m, Failure::UrlParse(e)),
            Ok(u) => (
                MachineView { stage: DownloadStage::FetchingMediaPlaylist, media_src: u, ..m },
                ActionView::FetchMediaPlaylist(u),
            ),
        },
        (DownloadStage::FetchingMediaPlaylist, EventView::MediaPlaylistReceived(bytes)) => match m3u8_media_segments(bytes) {
            Err(msg) => fail(m, Failure::PlaylistParse(msg)),
            Ok(ss) => (
                MachineView {
                    stage: DownloadStage::DownloadingKeys,
                    segment_uris: ss.map_values(|s: (Seq<char>, Option<Seq<char>>)| s.0),
                    ..m
                },
                ActionView::DownloadKeys(joined_each(m.media_src, key_uris_of(ss))),
            ),
        },
        (DownloadStage::DownloadingKeys, EventView::Completed) => (
            at(m, DownloadStage::DownloadingSegments),
            ActionView::DownloadSegments(
                joined_each(m.media_src, m.segment_uris),
                capped(c.multi_downloading_segment, MAX_MULTI_DOWNLOADING_SEGMENT),
            ),
        ),
        (DownloadStage::DownloadingSegments, EventView::Completed) => (
            at(m, DownloadStage::Merging),
            ActionView::Merge(m.file_name),
        ),
        (DownloadStage::Merging, EventView::Completed) => (
            at(m, DownloadStage::CopyingOut),
            ActionView::CopyOut(m.dir, m.file_name),
        ),
        (DownloadStage::CopyingOut, EventView::Completed) => (
            at(m, DownloadStage::Finished),
            ActionView::Finish,
        ),
        _ => fail(m, Failure::Plain(unexpected_message())),
    }
}

/// The state of one episode's download.
pub struct DownloadMachine {
    stage: DownloadStage,
    vip: bool,
    src: String,
    variants: Vec<Variant>,
    file_name: String,
    dir: (String, String),
    variant_uri: String,
    media_src: String,
    segment_uris: Vec<String>,
}

impl View for DownloadMachine {
    type V = MachineView;

    closed spec fn view(&self) -> MachineView {
        MachineView {
            stage: self.stage,
            vip: self.vip,
            src: self.src@,
            variants: variants_view(self.variants@),
            file_name: self.file_name@,
            dir: (self.dir.0@, self.dir.1@),
            variant_uri: self.variant_uri@,
            media_src: self.media_src@,
            segment_uris: self.segment_uris.deep_view(),
        }
    }
}

impl DownloadMachine {
    /// A new download; its first action checks for ffmpeg.
    pub fn start() -> (r: (DownloadMachine, DownloadAction))
        ensures
            r.0@ == initial_view(),
            r.1@ == ActionView::CheckFfmpeg,
    {
        let m = DownloadMachine {
            stage: DownloadStage::CheckingFfmpeg,
            vip: false,
            src: String::new(),
            variants: Vec::new(),
            file_name: String::new(),
            dir: (String::new(), String::new()),
            variant_uri: String::new(),
            media_src: String::new(),
            segment_uris: Vec::new(),
        };
        assert(m@.variants =~= Seq::<(Seq<char>, Option<(u64, u64)>)>::empty());
        assert(m@.segment_uris =~= Seq::<Seq<char>>::empty());
        (m, DownloadAction::CheckFfmpeg)
    }

    /// Where the download stands.
    pub fn stage(&self) -> (r: DownloadStage)
        ensures
            r == self@.stage,
    {
        self.stage
    }

    fn fail_with(&mut self, e: AnimeDownloadError) -> (a: DownloadAction)
        ensures
            final(self)@ == at(old(self)@, DownloadStage::Failed),
            a@ == ActionView::Fail(failure_of(e)),
    {
        self.stage = DownloadStage::Failed;
        DownloadAction::Fail(e)
    }

    fn fail_plain(&mut self, msg: &str) -> (a: DownloadAction)
        ensures
            final(self)@ == at(old(self)@, DownloadStage::Failed),
            a@ == ActionView::Fail(Failure::Plain(msg@)),
    {
        self.fail_with(AnimeDownloadError::Plain(String::from_str(msg)))
    }

    fn after_detail_step(&mut self, detail: EpisodeDetail, config: &Config) -> (a: DownloadAction)
        ensures
            (final(self)@, a@) == after_detail(old(self)@, detail@, *config),
    {
        let target = config.download_resolution.get_height();
        if !config.lock_resolution && self.variants.len() == 0 {
            return self.fail_plain("master playlist has no variant");
        }
        match select_variant(target, config.lock_resolution, &self.variants) {
            Err(AnimeDownloadError::Plain(msg)) => self.fail_with(AnimeDownloadError::Plain(msg)),
            Err(e) => self.fail_with(e),
            Ok(variant) => match variant.resolution {
                None => self.fail_plain("it should have resolution"),
                Some((_, height)) => {
                    self.file_name = detail.get_filename(height);
                    self.dir = detail.bangumi_dir();
                    self.variant_uri = variant.uri;
                    self.stage = DownloadStage::MakingTempDir;
                    DownloadAction::MakeTempDir
                },
            },
        }
    }

    /// Decides what follows `event`.
    pub fn step(&mut self, event: DownloadEvent, config: &Config) -> (a: DownloadAction)
        ensures
            (final(self)@, a@) == transition(old(self)@, event@, *config),
    {
        match (self.stage, event) {
            (DownloadStage::CheckingFfmpeg, DownloadEvent::FfmpegChecked { exists }) => {
                if exists {
                    self.stage = DownloadStage::FetchingDeviceId;
                    DownloadAction::FetchDeviceId
                } else {
                    self.fail_with(AnimeDownloadError::FFmpeg(FFmpegError::FFmpegNotExist))
                }
            },
            (DownloadStage::FetchingDeviceId, DownloadEvent::Completed) => {
                self.stage = DownloadStage::GainingAccess;
                DownloadAction::GainAccess { add_ad_id: true }
            },
            (DownloadStage::GainingAccess, DownloadEvent::TokenGranted { vip, time }) => {
                self.vip = vip;
                self.stage = DownloadStage::PreparingSession { step: 0 };
                DownloadAction::Unlock
            },
            (DownloadStage::PreparingSession { step }, DownloadEvent::Completed) => {
                if step == 0 {
                    self.stage = DownloadStage::PreparingSession { step: 1 };
                    DownloadAction::CheckLock
                } else if step == 1 {
                    self.stage = DownloadStage::PreparingSession { step: 2 };
                    DownloadAction::Unlock
                } else if step == 2 {
                    self.stage = DownloadStage::PreparingSession { step: 3 };
                    DownloadAction::Unlock
                } else if self.vip {
                    self.stage = DownloadStage::StartingVideo;
                    DownloadAction::VideoStart
                } else if config.only_use_vip {
                    self.fail_with(AnimeDownloadError::SetOnlyVipButNot)
                } else {
                    self.stage = DownloadStage::StartingAd;
                    DownloadAction::StartAd
                }
            },
            (DownloadStage::StartingAd, DownloadEvent::Completed) => {
                self.stage = DownloadStage::WaitingAd;
                DownloadAction::Wait { seconds: config.ads_time as u64 }
            },
            (DownloadStage::WaitingAd, DownloadEvent::Completed) => {
                self.stage = DownloadStage::SkippingAd;
                DownloadAction::SkipAd
            },
            (DownloadStage::SkippingAd, DownloadEvent::Completed) => {
                self.stage = DownloadStage::StartingVideo;
                DownloadAction::VideoStart
            },
            (DownloadStage::StartingVideo, DownloadEvent::Completed) => {
                self.stage = DownloadStage::CheckingNoAd { attempt: 0 };
                DownloadAction::GainAccess { add_ad_id: false }
            },
            (DownloadStage::CheckingNoAd { attempt }, DownloadEvent::TokenGranted { vip, time }) => {
                if time == 1 {
                    self.stage = DownloadStage::GettingPlaylist;
                    DownloadAction::GetPlaylist
                } else {
                    self.stage = DownloadStage::RetryWaiting { attempt };
                    DownloadAction::Wait { seconds: NO_AD_RETRY_SECONDS }
                }
            },
            (DownloadStage::RetryWaiting { attempt }, DownloadEvent::Completed) => {
                self.stage = DownloadStage::RetrySkippingAd { attempt };
                DownloadAction::SkipAd
            },
            (DownloadStage::RetrySkippingAd { attempt }, DownloadEvent::Completed) => {
                self.stage = DownloadStage::RetryStartingVideo { attempt };
                DownloadAction::VideoStart
            },
            (DownloadStage::RetryStartingVideo { attempt }, DownloadEvent::Completed) => {
                if attempt < NO_AD_ATTEMPTS - 1 {
                    self.stage = DownloadStage::CheckingNoAd { attempt: attempt + 1 };
                    DownloadAction::GainAccess { add_ad_id: false }
                } else {
                    self.fail_with(AnimeDownloadError::WaitAdsTimeout)
                }
            },
            (DownloadStage::GettingPlaylist, DownloadEvent::PlaylistReceived { src }) => {
                self.src = src.clone();
                self.stage = DownloadStage::FetchingMasterPlaylist;
                DownloadAction::FetchMasterPlaylist { src }
            },
            (DownloadStage::FetchingMasterPlaylist, DownloadEvent::MasterPlaylistReceived { bytes }) => {
                match parse_master_playlist(bytes.as_slice()) {
                    Err(msg) => self.fail_with(AnimeDownloadError::M3u8Parse(msg)),
                    Ok(variants) => {
                        self.variants = variants;
                        self.stage = DownloadStage::FetchingEpisodeDetail;
                        DownloadAction::FetchEpisodeDetail
                    },
                }
            },
            (DownloadStage::FetchingEpisodeDetail, DownloadEvent::EpisodeDetailReceived { detail }) => {
                self.after_detail_step(detail, config)
            },
            (DownloadStage::MakingTempDir, DownloadEvent::Completed) => {
                match join_url(self.src.as_str(), self.variant_uri.as_str()) {
                    Err(msg) => self.fail_with(AnimeDownloadError::UrlParseError(msg)),
                    Ok(url) => {
                        self.media_src = url.clone();
                        self.stage = DownloadStage::FetchingMediaPlaylist;
                        DownloadAction::FetchMediaPlaylist { url }
                    },
                }
            },
            (DownloadStage::FetchingMediaPlaylist, DownloadEvent::MediaPlaylistReceived { bytes }) => {
                match parse_media_playlist(bytes.as_slice()) {
                    Err(msg) => self.fail_with(AnimeDownloadError::M3u8Parse(msg)),
                    Ok(segments) => {
                        let keys = key_uris(&segments);
                        let files = join_each(self.media_src.as_str(), &keys);
                        self.segment_uris = Self::segment_uris_of(&segments);
                        self.stage = DownloadStage::DownloadingKeys;
                        DownloadAction::DownloadKeys { files }
                    },
                }
            },
            (DownloadStage::DownloadingKeys, DownloadEvent::Completed) => {
                let files = join_each(self.media_src.as_str(), &self.segment_uris);
                self.stage = DownloadStage::DownloadingSegments;
                let concurrency = cap_at(config.multi_downloading_segment, MAX_MULTI_DOWNLOADING_SEGMENT);
                DownloadAction::DownloadSegments { files, concurrency }
            },
            (DownloadStage::DownloadingSegments, DownloadEvent::Completed) => {
                self.stage = DownloadStage::Merging;
                DownloadAction::Merge { file_name: self.file_name.clone() }
            },
            (DownloadStage::Merging, DownloadEvent::Completed) => {
                self.stage = DownloadStage::CopyingOut;
                DownloadAction::CopyOut {
                    dir: (self.dir.0.clone(), self.dir.1.clone()),
                    file_name: self.file_name.clone(),
                }
            },
            (DownloadStage::CopyingOut, DownloadEvent::Completed) => {
                self.stage = DownloadStage::Finished;
                DownloadAction::Finish
            },
            _ => self.fail_plain("unexpected download event"),
        }
    }

    fn segment_uris_of(segments: &Vec<Segment>) -> (r: Vec<String>)
        ensures
            r.deep_view() == segments_view(segments@).map_values(|s: (Seq<char>, Option<Seq<char>>)| s.0),
    {
        let mut out: Vec<String> = Vec::new();
        let mut i: usize = 0;
        while i < segments.len()
            invariant
                i <= segments@.len(),
                out.deep_view() == segments_view(segments@).map_values(|s: (Seq<char>, Option<Seq<char>>)| s.0).take(i as int),
            decreases segments@.len() - i,
        {
            let ghost before = out.deep_view();
            out.push(segments[i].uri.clone());
            assert(out.deep_view() =~= before.push(segments@[i as int].uri@));
            i = i + 1;
            assert(segments_view(segments@).map_values(|s: (Seq<char>, Option<Seq<char>>)| s.0).take(i as int)
                =~= before.push(segments@[i - 1].uri@));
        }
        assert(segments_view(segments@).map_values(|s: (Seq<char>, Option<Seq<char>>)| s.0).take(segments@.len() as int)
            =~= segments_view(segments@).map_values(|s: (Seq<char>, Option<Seq<char>>)| s.0));
        out
    }
}

/// The states and actions of a download in state `m` that is told `events`
/// in order: the final state and every action taken.
pub open spec fn run(m: MachineView, events: Seq<EventView>, c: Config) -> (MachineView, Seq<ActionView>)
    decreases events.len(),
{
    if events.len() == 0 {
        (m, Seq::empty())
    } else {
        let (mid, acts) = run(m, events.drop_last(), c);
        let (next, a) = transition(mid, events.last(), c);
        (next, acts.push(a))
    }
}

/// Whether an action asks for a token while waiting for the advertisement to
/// clear.
pub open spec fn is_no_ad_check(a: ActionView) -> bool {
    a matches ActionView::GainAccess(add) && !add
}

/// The number of such token requests among `acts`.
pub open spec fn no_ad_checks(acts: Seq<ActionView>) -> nat
    decreases acts.len(),
{
    if acts.len() == 0 {
        0
    } else {
        no_ad_checks(acts.drop_last()) + if is_no_ad_check(acts.last()) {
            1nat
        } else {
            0nat
        }
    }
}

/// How many such token requests a download in stage `s` may still make.
pub open spec fn checks_left(s: DownloadStage) -> nat {
    match s {
        DownloadStage::CheckingFfmpeg | DownloadStage::FetchingDeviceId | DownloadStage::GainingAccess
        | DownloadStage::PreparingSession { .. } | DownloadStage::StartingAd | DownloadStage::WaitingAd
        | DownloadStage::SkippingAd | DownloadStage::StartingVideo => NO_AD_ATTEMPTS as nat,
        DownloadStage::CheckingNoAd { attempt } | DownloadStage::RetryWaiting { attempt }
        | DownloadStage::RetrySkippingAd { attempt } | DownloadStage::RetryStartingVideo { attempt } => if attempt
            < NO_AD_ATTEMPTS {
            (NO_AD_ATTEMPTS - 1 - attempt) as nat
        } else {
            0
        },
        _ => 0,
    }
}

/// A stage that a download can be in: an advertisement check is one of the
/// ten allowed.
pub open spec fn stage_wf(s: DownloadStage) -> bool {
    match s {
        DownloadStage::CheckingNoAd { attempt } | DownloadStage::RetryWaiting { attempt }
        | DownloadStage::RetrySkippingAd { attempt } | DownloadStage::RetryStartingVideo { attempt } => attempt
            < NO_AD_ATTEMPTS,
        DownloadStage::PreparingSession { step } => step < 4,
        _ => true,
    }
}

/// One step keeps the stage well formed, and asks for an advertisement check
/// only while one is left, using it up.
pub proof fn lemma_transition_budget(m: MachineView, e: EventView, c: Config)
    requires
        stage_wf(m.stage),
    ensures
        stage_wf(transition(m, e, c).0.stage),
        checks_left(transition(m, e, c).0.stage) + if is_no_ad_check(transition(m, e, c).1) {
            1nat
        } else {
            0nat
        } <= checks_left(m.stage),
{
}

/// Waiting for the advertisement to clear asks for at most ten tokens, over
/// any sequence of events.
pub proof fn lemma_run_no_ad_checks_bounded(m: MachineView, events: Seq<EventView>, c: Config)
    requires
        stage_wf(m.stage),
    ensures
        stage_wf(run(m, events, c).0.stage),
        no_ad_checks(run(m, events, c).1) + checks_left(run(m, events, c).0.stage) <= checks_left(m.stage),
        no_ad_checks(run(m, events, c).1) <= NO_AD_ATTEMPTS,
    decreases events.len(),
{
    if events.len() > 0 {
        lemma_run_no_ad_checks_bounded(m, events.drop_last(), c);
        let (mid, acts) = run(m, events.drop_last(), c);
        lemma_transition_budget(mid, events.last(), c);
        let (next, a) = transition(mid, events.last(), c);
        assert(run(m, events, c).1 == acts.push(a));
        assert(acts.push(a).drop_last() =~= acts);
    }
}

/// An advertisement is only ever started for an account without VIP, and
/// only when VIP-only downloads are not configured.
pub proof fn lemma_ads_only_without_vip(m: MachineView, e: EventView, c: Config)
    ensures
        transition(m, e, c).1 is StartAd ==> !m.vip && !c.only_use_vip,
{
}

/// The playlist is only asked for once a token says the advertisement has
/// been served (its time is 1), VIP or not; any other token during the check
/// leads to a wait of two seconds before the next try.
pub proof fn lemma_playlist_only_after_served_ad(m: MachineView, e: EventView, c: Config)
    ensures
        transition(m, e, c).1 is GetPlaylist ==> (e matches EventView::TokenGranted(_, t) && t == 1),
        m.stage is CheckingNoAd && (e matches EventView::TokenGranted(_, t) && t != 1) ==> transition(
            m,
            e,
            c,
        ).1 == ActionView::Wait(2),
        m.stage is CheckingNoAd && (e matches EventView::TokenGranted(_, t) && t == 1) ==> transition(
            m,
            e,
            c,
        ).1 == ActionView::GetPlaylist,
{
}

/// With VIP-only downloads configured, no advertisement is ever started.
pub proof fn lemma_vip_only_never_starts_ads(m: MachineView, events: Seq<EventView>, c: Config)
    requires
        c.only_use_vip,
    ensures
        forall|i: int| 0 <= i < run(m, events, c).1.len() ==> !(#[trigger] run(m, events, c).1[i] is StartAd),
    decreases events.len(),
{
    if events.len() > 0 {
        lemma_vip_only_never_starts_ads(m, events.drop_last(), c);
        let (mid, acts) = run(m, events.drop_last(), c);
        assert(!(transition(mid, events.last(), c).1 is StartAd));
        assert forall|i: int| 0 <= i < run(m, events, c).1.len() implies !(#[trigger] run(m, events, c).1[i] is StartAd) by {
            if i < acts.len() {
                assert(run(m, events, c).1[i] == acts[i]);
            }
        }
    }
}

/// A failed download stays failed whatever it is told, and only reports failure.
pub proof fn lemma_failed_is_final(m: MachineView, events: Seq<EventView>, c: Config)
    requires
        m.stage == DownloadStage::Failed,
    ensures
        run(m, events, c).0.stage == DownloadStage::Failed,
        forall|i: int| 0 <= i < run(m, events, c).1.len() ==> (#[trigger] run(m, events, c).1[i] is Fail),
    decreases events.len(),
{
    if events.len() > 0 {
        lemma_failed_is_final(m, events.drop_last(), c);
        let (mid, acts) = run(m, events.drop_last(), c);
        assert forall|i: int| 0 <= i < run(m, events, c).1.len() implies (#[trigger] run(m, events, c).1[i] is Fail) by {
            if i < acts.len() {
                assert(run(m, events, c).1[i] == acts[i]);
            }
        }
    }
}

} // verus!
