use ani_dock::config::{Config, ConfigVersion, DownloadMode, DownloadResolution, InternalConfig, DEFAULT_USER_AGENT};
use ani_dock::ffmpeg::{FFmpeg, FFmpegError};
use ani_dock::request::device_id::DeviceId as DeviceIdBody;
use ani_dock::request::playlist::PlaylistSrc;
use ani_dock::request::token::{Token, TokenError};
use ani_dock::sn_list::{SnDetail, SnList};

#[test]
fn config_defaults() {
    let c = Config::default();
    assert_eq!(c.download_resolution, DownloadResolution::P1080);
    assert!(!c.lock_resolution);
    assert!(!c.only_use_vip);
    assert_eq!(c.default_download_mode, DownloadMode::Latest);
    assert!(c.prefer_move);
    assert_eq!(c.multi_thread, 1);
    assert_eq!(c.multi_downloading_segment, 2);
    assert_eq!(c.segment_max_retry, 8);
    assert_eq!(c.ua, DEFAULT_USER_AGENT);
    assert_eq!(c.proxy, None);
    assert!(!c.use_mobile_api);
    assert!(!c.danmu);
    assert!(c.danmu_ban_words.is_empty());
    assert_eq!(c.ads_time, 25);
    assert_eq!(c.mobile_ads_time, 25);
    assert!(c.save_logs);
    assert_eq!(c.quantity_of_logs, 7);
    assert_eq!(c.internal, InternalConfig { config_version: ConfigVersion { major: 1, minor: 0 } });
    assert_eq!(InternalConfig::default(), c.internal);
    assert_eq!(DownloadMode::default(), DownloadMode::Latest);
    assert_eq!(DownloadResolution::default(), DownloadResolution::P1080);
}

#[test]
fn resolution_heights() {
    let all = [
        (DownloadResolution::P360, 360),
        (DownloadResolution::P480, 480),
        (DownloadResolution::P540, 540),
        (DownloadResolution::P576, 576),
        (DownloadResolution::P720, 720),
        (DownloadResolution::P1080, 1080),
    ];
    for (r, h) in all {
        assert_eq!(r.get_height(), h);
    }
}

#[test]
fn ffmpeg_arguments() {
    assert_eq!(FFmpeg::exist_args(), vec!["-h".to_string()]);
    assert_eq!(
        FFmpeg::merge_m3u8_args("/tmp/1/manifest.m3u8", "/tmp/1/a.mp4"),
        vec!["-allowed_extensions ALL", "-i /tmp/1/manifest.m3u8", "-c copy", "/tmp/1/a.mp4", "-y"]
    );
    assert_eq!(FFmpeg::merge_outcome(true, "ignored".to_string()), Ok(()));
    assert_eq!(
        FFmpeg::merge_outcome(false, "boom".to_string()),
        Err(FFmpegError::Command("boom".to_string()))
    );
}

#[test]
fn token_accessors_and_error_text() {
    let t = Token::new(1, true, 0, "src".to_string(), 1, true);
    assert!(t.vip());
    assert_eq!(t.time(), 1);
    let t = Token::new(1, false, 0, String::new(), 7, false);
    assert!(!t.vip());
    assert_eq!(t.time(), 7);
    let e = TokenError::new("403".to_string(), "denied".to_string());
    assert_eq!(e.to_display_string(), "[code]: 403, [message]: denied");
}

#[test]
fn response_bodies_hand_back_their_content() {
    assert_eq!(DeviceIdBody::new("abc".to_string()).into_device_id(), "abc");
    assert_eq!(PlaylistSrc::new("https://x/y.m3u8".to_string()).src(), "https://x/y.m3u8");
}

#[test]
fn sn_list_keeps_entries_in_order() {
    let entries = vec![
        SnDetail { code: "12345".to_string(), mode: None },
        SnDetail { code: "67890".to_string(), mode: Some(DownloadMode::All) },
    ];
    let list = SnList::from_entries(entries.clone());
    assert_eq!(list.entries(), &entries);
    assert_eq!(list.into_entries(), entries);
    assert_eq!(SnList::default().into_entries(), Vec::new());
}

#[test]
fn normalized_caps_concurrency_at_five() {
    let c = Config { multi_thread: 8, multi_downloading_segment: 9, ads_time: 3, ..Config::default() };
    let n = c.clone().normalized();
    assert_eq!(n.multi_thread, 5);
    assert_eq!(n.multi_downloading_segment, 5);
    assert_eq!(n.ads_time, 3);
    assert_eq!(Config { multi_thread: 5, multi_downloading_segment: 5, ..c.clone() }, n);
    let d = Config::default();
    assert_eq!(d.clone().normalized(), d);
    let small = Config { multi_thread: 0, multi_downloading_segment: 4, ..Config::default() };
    assert_eq!(small.clone().normalized(), small);
}
