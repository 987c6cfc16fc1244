//! User configuration and its defaults.

use vstd::prelude::*;

verus! {

/// The resolution to download, by picture height.
#[derive(Debug, Clone, Copy, PartialEq, Eq, Structural)]
pub enum DownloadResolution {
    /// 360p
    P360,
    /// 480p
    P480,
    /// 540p
    P540,
    /// 576p
    P576,
    /// 720p
    P720,
    /// 1080p
    P1080,
}

/// The picture height of a resolution.
pub open spec fn resolution_height(r: DownloadResolution) -> nat {
    match r {
        DownloadResolution::P360 => 360,
        DownloadResolution::P480 => 480,
        DownloadResolution::P540 => 540,
        DownloadResolution::P576 => 576,
        DownloadResolution::P720 => 720,
        DownloadResolution::P1080 => 1080,
    }
}

impl Default for DownloadResolution {
    /// 1080p.
    fn default() -> (r: DownloadResolution)
        ensures
            r == DownloadResolution::P1080,
    {
        DownloadResolution::P1080
    }
}

impl DownloadResolution {
    /// The picture height in pixels.
    pub fn get_height(&self) -> (r: u64)
        ensures
            r == resolution_height(*self),
    {
        match self {
            DownloadResolution::P360 => 360,
            DownloadResolution::P480 => 480,
            DownloadResolution::P540 => 540,
            DownloadResolution::P576 => 576,
            DownloadResolution::P720 => 720,
            DownloadResolution::P1080 => 1080,
        }
    }
}

/// Which episodes of an anime to download.
#[derive(Debug, Clone, Copy, PartialEq, Eq, Structural)]
pub enum DownloadMode {
    /// Only the newest episode.
    Latest,
    /// Every episode.
    All,
    /// The episode uploaded last.
    LargestSn,
}

impl Default for DownloadMode {
    /// Only the newest episode.
    fn default() -> (r: DownloadMode)
        ensures
            r == DownloadMode::Latest,
    {
        DownloadMode::Latest
    }
}

/// Version of the configuration file format.
#[derive(Debug, Clone, Copy, PartialEq, Eq, Structural)]
pub struct ConfigVersion {
    /// A new major version cannot read older files.
    pub major: u32,
    /// A new minor version still reads older files.
    pub minor: u32,
}

/// Settings kept for the program itself.
#[derive(Debug, Clone, Copy, PartialEq, Eq, Structural)]
pub struct InternalConfig {
    /// Version of the configuration file.
    pub config_version: ConfigVersion,
}

impl Default for InternalConfig {
    /// Format version 1.0.
    fn default() -> (r: InternalConfig)
        ensures
            r.config_version == (ConfigVersion { major: 1, minor: 0 }),
    {
        InternalConfig { config_version: ConfigVersion { major: 1, minor: 0 } }
    }
}

/// The user agent sent by default.
pub const DEFAULT_USER_AGENT: &'static str = "Mozilla/5.0 (Macintosh; Intel Mac OS X 10_15_7) AppleWebKit/537.36 (KHTML, like Gecko) Chrome/146.0.0.0 Safari/537.36 Edg/146.0.0.0";

/// The user's configuration.
#[derive(Debug, Clone, PartialEq, Eq)]
pub struct Config {
    /// Resolution to download; the closest available one is taken when it is
    /// missing, unless `lock_resolution` is set.
    pub download_resolution: DownloadResolution,
    /// Give up when the chosen resolution is missing.
    pub lock_resolution: bool,
    /// Only download with a VIP account.
    pub only_use_vip: bool,
    /// Download mode of anime that name none.
    pub default_download_mode: DownloadMode,
    /// Move finished files rather than copy them.
    pub prefer_move: bool,
    /// Episodes downloaded at the same time; at most 5, a higher value is
    /// reset to 5.
    pub multi_thread: u32,
    /// Segments of one episode downloaded at the same time; at most 5, a
    /// higher value is reset to 5.
    pub multi_downloading_segment: u32,
    /// Retries per segment; -1 retries without end.
    pub segment_max_retry: i32,
    /// User agent of requests; it should be the browser's that the cookie came from.
    pub ua: String,
    /// Proxy for requests.
    pub proxy: Option<String>,
    /// Resolve videos through the mobile API.
    pub use_mobile_api: bool,
    /// Download danmaku comments.
    pub danmu: bool,
    /// Extra words that filter danmaku comments.
    pub danmu_ban_words: Vec<String>,
    /// Seconds to wait for advertisements without VIP.
    pub ads_time: u32,
    /// Seconds to wait for advertisements through the mobile API.
    pub mobile_ads_time: u32,
    /// Keep a log file per day.
    pub save_logs: bool,
    /// Number of log files kept.
    pub quantity_of_logs: u32,
    /// Settings of the program itself.
    pub internal: InternalConfig,
}

impl Default for Config {
    /// The default configuration.
    fn default() -> (r: Config)
        ensures
            r.download_resolution == DownloadResolution::P1080,
            !r.lock_resolution,
            !r.only_use_vip,
            r.default_download_mode == DownloadMode::Latest,
            r.prefer_move,
            r.multi_thread == 1,
            r.multi_downloading_segment == 2,
            r.segment_max_retry == 8,
            r.ua@ == DEFAULT_USER_AGENT@,
            r.proxy is None,
            !r.use_mobile_api,
            !r.danmu,
            r.danmu_ban_words@.len() == 0,
            r.ads_time == 25,
            r.mobile_ads_time == 25,
            r.save_logs,
            r.quantity_of_logs == 7,
            r.internal.config_version == (ConfigVersion { major: 1, minor: 0 }),
    {
        Config {
            download_resolution: DownloadResolution::default(),
            lock_resolution: false,
            only_use_vip: false,
            default_download_mode: DownloadMode::default(),
            prefer_move: true,
            multi_thread: 1,
            multi_downloading_segment: 2,
            segment_max_retry: 8,
            ua: String::from_str(DEFAULT_USER_AGENT),
            proxy: None,
            use_mobile_api: false,
            danmu: false,
            danmu_ban_words: Vec::new(),
            ads_time: 25,
            mobile_ads_time: 25,
            save_logs: true,
            quantity_of_logs: 7,
            internal: InternalConfig::default(),
        }
    }
}

/// The most episodes downloaded at the same time.
pub const MAX_MULTI_THREAD: u32 = 5;

/// The most segments of one episode downloaded at the same time.
pub const MAX_MULTI_DOWNLOADING_SEGMENT: u32 = 5;

/// `v`, reset to `cap` when higher.
pub open spec fn capped(v: u32, cap: u32) -> u32 {
    if v > cap {
        cap
    } else {
        v
    }
}

/// `v`, reset to `cap` when higher.
pub fn cap_at(v: u32, cap: u32) -> (r: u32)
    ensures
        r == capped(v, cap),
{
    if v > cap {
        cap
    } else {
        v
    }
}

impl Config {
    /// The configuration with `multi_thread` and `multi_downloading_segment`
    /// reset to 5 where they are higher; everything else as it is.
    pub fn normalized(self) -> (r: Config)
        ensures
            r == (Config {
                multi_thread: capped(self.multi_thread, MAX_MULTI_THREAD),
                multi_downloading_segment: capped(self.multi_downloading_segment, MAX_MULTI_DOWNLOADING_SEGMENT),
                ..self
            }),
    {
        let multi_thread = cap_at(self.multi_thread, MAX_MULTI_THREAD);
        let multi_downloading_segment = cap_at(self.multi_downloading_segment, MAX_MULTI_DOWNLOADING_SEGMENT);
        Config { multi_thread, multi_downloading_segment, ..self }
    }
}

} // verus!
