use ani_dock::anime::download::{DownloadAction, DownloadEvent, DownloadMachine, DownloadStage};
use ani_dock::anime::episode_detail::EpisodeDetail;
use ani_dock::anime::error::AnimeDownloadError;
use ani_dock::config::{Config, DownloadResolution};
use ani_dock::ffmpeg::FFmpegError;
use ani_dock::util::FileTask;

const PLAYLIST_SRC: &str = "https://bahamut.akamaized.net/1141335ecf074e13f1c3e381db61f15d50216b55/playlist_guest.m3u8?hdnts=exp%3D1784312875%7Edata%3D5279d92ff769460%3A49953%3A0%3A1%3A6868682b%3A0%3A1%7Eacl%3D%2F1141335ecf074e13f1c3e381db61f15d50216b55%2Fplaylist_guest.m3u8%21%2F1141335ecf074e13f1c3e381db61f15d50216b55%2F360p%2F%2A%7Ehmac%3D3f3176ab6a3e7a64573b85313896d93bd6437ee4f5dceb9f0d2003e166172aa8";

const VARIANT_URI: &str = "360p/hdntl=exp=1784395675~acl=%2f1141335ecf074e13f1c3e381db61f15d50216b55%2fplaylist_guest.m3u8!%2f1141335ecf074e13f1c3e381db61f15d50216b55%2f360p%2f*~data=hdntl,5279d92ff769460%3a49953%3a0%3a1%3a6868682b%3a0%3a1~hmac=dd2e1220cbd4c8ace80f098acb9469b0eb30f01c7b1bc17d7dbb8e96085716ec/chunklist_b400000.m3u8";

const MEDIA_URL: &str = "https://bahamut.akamaized.net/1141335ecf074e13f1c3e381db61f15d50216b55/360p/hdntl=exp=1784395675~acl=%2f1141335ecf074e13f1c3e381db61f15d50216b55%2fplaylist_guest.m3u8!%2f1141335ecf074e13f1c3e381db61f15d50216b55%2f360p%2f*~data=hdntl,5279d92ff769460%3a49953%3a0%3a1%3a6868682b%3a0%3a1~hmac=dd2e1220cbd4c8ace80f098acb9469b0eb30f01c7b1bc17d7dbb8e96085716ec/chunklist_b400000.m3u8";

const MEDIA_DIR: &str = "https://bahamut.akamaized.net/1141335ecf074e13f1c3e381db61f15d50216b55/360p/hdntl=exp=1784395675~acl=%2f1141335ecf074e13f1c3e381db61f15d50216b55%2fplaylist_guest.m3u8!%2f1141335ecf074e13f1c3e381db61f15d50216b55%2f360p%2f*~data=hdntl,5279d92ff769460%3a49953%3a0%3a1%3a6868682b%3a0%3a1~hmac=dd2e1220cbd4c8ace80f098acb9469b0eb30f01c7b1bc17d7dbb8e96085716ec/";

fn master_playlist() -> Vec<u8> {
    format!("#EXTM3U\n#EXT-X-VERSION:3\n#EXT-X-STREAM-INF:BANDWIDTH=400000,RESOLUTION=640x360\n{VARIANT_URI}\n")
        .into_bytes()
}

fn master_with(variants: &[(u64, u64, &str)]) -> Vec<u8> {
    let mut s = String::from("#EXTM3U\n#EXT-X-VERSION:3\n");
    for (w, h, uri) in variants {
        s.push_str(&format!("#EXT-X-STREAM-INF:BANDWIDTH=400000,RESOLUTION={w}x{h}\n{uri}\n"));
    }
    s.into_bytes()
}

fn media_playlist() -> Vec<u8> {
    let mut s = String::from(
        "#EXTM3U\n#EXT-X-VERSION:3\n#EXT-X-TARGETDURATION:10\n#EXT-X-MEDIA-SEQUENCE:0\n#EXT-X-KEY:METHOD=AES-128,URI=\"key_b400000.m3u8key\",IV=0x2b8c048f2fb7a2cefc543a3c1d1c869b\n",
    );
    for i in 0..138 {
        let d = if i % 2 == 0 { "10.427089" } else { "10.427078" };
        s.push_str(&format!("#EXTINF:{d},\nmedia_b400000_{i}.ts\n"));
    }
    s.push_str("#EXT-X-ENDLIST\n");
    s.into_bytes()
}

fn step(m: &mut DownloadMachine, e: DownloadEvent, c: &Config) -> DownloadAction {
    m.step(e, c)
}

/// Drives a VIP download up to the request for the master playlist.
fn up_to_master(c: &Config) -> DownloadMachine {
    let (mut m, first) = DownloadMachine::start();
    assert!(matches!(first, DownloadAction::CheckFfmpeg));
    assert!(matches!(step(&mut m, DownloadEvent::FfmpegChecked { exists: true }, c), DownloadAction::FetchDeviceId));
    assert!(matches!(step(&mut m, DownloadEvent::Completed, c), DownloadAction::GainAccess { add_ad_id: true }));
    assert!(matches!(
        step(&mut m, DownloadEvent::TokenGranted { vip: true, time: 0 }, c),
        DownloadAction::Unlock
    ));
    assert!(matches!(step(&mut m, DownloadEvent::Completed, c), DownloadAction::CheckLock));
    assert!(matches!(step(&mut m, DownloadEvent::Completed, c), DownloadAction::Unlock));
    assert!(matches!(step(&mut m, DownloadEvent::Completed, c), DownloadAction::Unlock));
    assert!(matches!(step(&mut m, DownloadEvent::Completed, c), DownloadAction::VideoStart));
    assert!(matches!(step(&mut m, DownloadEvent::Completed, c), DownloadAction::GainAccess { add_ad_id: false }));
    assert!(matches!(
        step(&mut m, DownloadEvent::TokenGranted { vip: true, time: 1 }, c),
        DownloadAction::GetPlaylist
    ));
    match step(&mut m, DownloadEvent::PlaylistReceived { src: PLAYLIST_SRC.to_string() }, c) {
        DownloadAction::FetchMasterPlaylist { src } => assert_eq!(src, PLAYLIST_SRC),
        other => panic!("unexpected action {other:?}"),
    }
    m
}

/// Hands over the episode's details, checks that the temporary directory is
/// asked for, and reports it made.
fn through_temp_dir(m: &mut DownloadMachine, c: &Config) -> DownloadAction {
    assert!(matches!(
        step(m, DownloadEvent::EpisodeDetailReceived { detail: detail() }, c),
        DownloadAction::MakeTempDir
    ));
    step(m, DownloadEvent::Completed, c)
}

fn detail() -> EpisodeDetail {
    EpisodeDetail::from_title("進擊的巨人 [1]").unwrap()
}

#[test]
fn m3u8_parse_master_playlist() {
    let c = Config::default();
    let mut m = up_to_master(&c);
    assert!(matches!(
        step(&mut m, DownloadEvent::MasterPlaylistReceived { bytes: master_playlist() }, &c),
        DownloadAction::FetchEpisodeDetail
    ));
    // The only variant is 360 pixels high; 1080 is asked for, so it is the nearest.
    match through_temp_dir(&mut m, &c) {
        DownloadAction::FetchMediaPlaylist { url } => assert_eq!(url, MEDIA_URL),
        other => panic!("unexpected action {other:?}"),
    }
}

#[test]
fn m3u8_url_path_resolve() {
    let c = Config::default();
    let mut m = up_to_master(&c);
    step(&mut m, DownloadEvent::MasterPlaylistReceived { bytes: master_playlist() }, &c);
    match through_temp_dir(&mut m, &c) {
        DownloadAction::FetchMediaPlaylist { url } => assert_eq!(
            url,
            "https://bahamut.akamaized.net/1141335ecf074e13f1c3e381db61f15d50216b55/360p/hdntl=exp=1784395675~acl=%2f1141335ecf074e13f1c3e381db61f15d50216b55%2fplaylist_guest.m3u8!%2f1141335ecf074e13f1c3e381db61f15d50216b55%2f360p%2f*~data=hdntl,5279d92ff769460%3a49953%3a0%3a1%3a6868682b%3a0%3a1~hmac=dd2e1220cbd4c8ace80f098acb9469b0eb30f01c7b1bc17d7dbb8e96085716ec/chunklist_b400000.m3u8"
        ),
        other => panic!("unexpected action {other:?}"),
    }
}

#[test]
fn m3u8_parse_media_playlist() {
    let c = Config::default();
    let mut m = up_to_master(&c);
    step(&mut m, DownloadEvent::MasterPlaylistReceived { bytes: master_playlist() }, &c);
    through_temp_dir(&mut m, &c);
    match step(&mut m, DownloadEvent::MediaPlaylistReceived { bytes: media_playlist() }, &c) {
        DownloadAction::DownloadKeys { files } => assert_eq!(
            files,
            vec![FileTask {
                url: Ok(format!("{MEDIA_DIR}key_b400000.m3u8key")),
                name: "key_b400000.m3u8key".to_string()
            }]
        ),
        other => panic!("unexpected action {other:?}"),
    }
    match step(&mut m, DownloadEvent::Completed, &c) {
        DownloadAction::DownloadSegments { files, concurrency } => {
            assert_eq!(concurrency, 2);
            assert_eq!(files.len(), 138);
            assert_eq!(
                files[0],
                FileTask { url: Ok(format!("{MEDIA_DIR}media_b400000_0.ts")), name: "media_b400000_0.ts".to_string() }
            );
            assert_eq!(files[137].name, "media_b400000_137.ts");
        },
        other => panic!("unexpected action {other:?}"),
    }
    match step(&mut m, DownloadEvent::Completed, &c) {
        DownloadAction::Merge { file_name } => assert_eq!(file_name, "進擊的巨人[1][360P].mp4"),
        other => panic!("unexpected action {other:?}"),
    }
    match step(&mut m, DownloadEvent::Completed, &c) {
        DownloadAction::CopyOut { dir, file_name } => {
            assert_eq!(dir, ("進擊的巨人".to_string(), "第一季".to_string()));
            assert_eq!(file_name, "進擊的巨人[1][360P].mp4");
        },
        other => panic!("unexpected action {other:?}"),
    }
    assert!(matches!(step(&mut m, DownloadEvent::Completed, &c), DownloadAction::Finish));
    assert_eq!(m.stage(), DownloadStage::Finished);
}

#[test]
fn download_picks_exact_resolution_when_present() {
    let c = Config { download_resolution: DownloadResolution::P720, ..Config::default() };
    let mut m = up_to_master(&c);
    let bytes = master_with(&[(640, 360, "a.m3u8"), (1280, 720, "b.m3u8"), (1920, 1080, "c.m3u8")]);
    step(&mut m, DownloadEvent::MasterPlaylistReceived { bytes }, &c);
    match through_temp_dir(&mut m, &c) {
        DownloadAction::FetchMediaPlaylist { url } => assert_eq!(
            url,
            "https://bahamut.akamaized.net/1141335ecf074e13f1c3e381db61f15d50216b55/b.m3u8"
        ),
        other => panic!("unexpected action {other:?}"),
    }
}

#[test]
fn download_takes_earlier_of_two_equally_close_resolutions() {
    let c = Config { download_resolution: DownloadResolution::P540, ..Config::default() };
    let mut m = up_to_master(&c);
    let bytes = master_with(&[(640, 360, "a.m3u8"), (1280, 720, "b.m3u8")]);
    step(&mut m, DownloadEvent::MasterPlaylistReceived { bytes }, &c);
    match through_temp_dir(&mut m, &c) {
        DownloadAction::FetchMediaPlaylist { url } => assert!(url.ends_with("/a.m3u8")),
        other => panic!("unexpected action {other:?}"),
    }
}

#[test]
fn download_with_locked_missing_resolution_fails() {
    let c = Config { lock_resolution: true, ..Config::default() };
    let mut m = up_to_master(&c);
    let bytes = master_with(&[(640, 360, "a.m3u8"), (1280, 720, "b.m3u8")]);
    step(&mut m, DownloadEvent::MasterPlaylistReceived { bytes }, &c);
    match step(&mut m, DownloadEvent::EpisodeDetailReceived { detail: detail() }, &c) {
        DownloadAction::Fail(e) => assert_eq!(
            e,
            AnimeDownloadError::Plain(
                "there is no selected resolution, and locked resolution. available resolutions: [360, 720]"
                    .to_string()
            )
        ),
        other => panic!("unexpected action {other:?}"),
    }
    assert_eq!(m.stage(), DownloadStage::Failed);
}

#[test]
fn download_reports_unparsable_master_playlist() {
    let c = Config::default();
    let mut m = up_to_master(&c);
    match step(&mut m, DownloadEvent::MasterPlaylistReceived { bytes: b"not a playlist".to_vec() }, &c) {
        DownloadAction::Fail(AnimeDownloadError::M3u8Parse(_)) => {},
        other => panic!("unexpected action {other:?}"),
    }
}

#[test]
fn download_without_ffmpeg_fails() {
    let c = Config::default();
    let (mut m, _) = DownloadMachine::start();
    match step(&mut m, DownloadEvent::FfmpegChecked { exists: false }, &c) {
        DownloadAction::Fail(e) => assert_eq!(e, AnimeDownloadError::FFmpeg(FFmpegError::FFmpegNotExist)),
        other => panic!("unexpected action {other:?}"),
    }
    // A failed download stays failed.
    assert!(matches!(step(&mut m, DownloadEvent::Completed, &c), DownloadAction::Fail(_)));
    assert_eq!(m.stage(), DownloadStage::Failed);
}

fn up_to_session_end(c: &Config, vip: bool) -> DownloadMachine {
    let (mut m, _) = DownloadMachine::start();
    step(&mut m, DownloadEvent::FfmpegChecked { exists: true }, c);
    step(&mut m, DownloadEvent::Completed, c);
    step(&mut m, DownloadEvent::TokenGranted { vip, time: 0 }, c);
    step(&mut m, DownloadEvent::Completed, c);
    step(&mut m, DownloadEvent::Completed, c);
    step(&mut m, DownloadEvent::Completed, c);
    m
}

#[test]
fn download_waits_for_ads_without_vip() {
    let c = Config { ads_time: 7, ..Config::default() };
    let mut m = up_to_session_end(&c, false);
    assert!(matches!(step(&mut m, DownloadEvent::Completed, &c), DownloadAction::StartAd));
    assert!(matches!(step(&mut m, DownloadEvent::Completed, &c), DownloadAction::Wait { seconds: 7 }));
    assert!(matches!(step(&mut m, DownloadEvent::Completed, &c), DownloadAction::SkipAd));
    assert!(matches!(step(&mut m, DownloadEvent::Completed, &c), DownloadAction::VideoStart));
}

#[test]
fn download_only_vip_without_vip_fails() {
    let c = Config { only_use_vip: true, ..Config::default() };
    let mut m = up_to_session_end(&c, false);
    match step(&mut m, DownloadEvent::Completed, &c) {
        DownloadAction::Fail(e) => assert_eq!(e, AnimeDownloadError::SetOnlyVipButNot),
        other => panic!("unexpected action {other:?}"),
    }
}

#[test]
fn download_gives_up_after_ten_ad_checks() {
    let c = Config::default();
    let mut m = up_to_session_end(&c, true);
    assert!(matches!(step(&mut m, DownloadEvent::Completed, &c), DownloadAction::VideoStart));
    let mut checks = 1;
    assert!(matches!(step(&mut m, DownloadEvent::Completed, &c), DownloadAction::GainAccess { add_ad_id: false }));
    loop {
        assert!(matches!(
            step(&mut m, DownloadEvent::TokenGranted { vip: true, time: 0 }, &c),
            DownloadAction::Wait { seconds: 2 }
        ));
        assert!(matches!(step(&mut m, DownloadEvent::Completed, &c), DownloadAction::SkipAd));
        assert!(matches!(step(&mut m, DownloadEvent::Completed, &c), DownloadAction::VideoStart));
        match step(&mut m, DownloadEvent::Completed, &c) {
            DownloadAction::GainAccess { add_ad_id: false } => checks += 1,
            DownloadAction::Fail(e) => {
                assert_eq!(e, AnimeDownloadError::WaitAdsTimeout);
                break;
            },
            other => panic!("unexpected action {other:?}"),
        }
    }
    assert_eq!(checks, 10);
}

#[test]
fn download_rejects_unexpected_event() {
    let c = Config::default();
    let (mut m, _) = DownloadMachine::start();
    match step(&mut m, DownloadEvent::Completed, &c) {
        DownloadAction::Fail(e) => assert_eq!(e, AnimeDownloadError::Plain("unexpected download event".to_string())),
        other => panic!("unexpected action {other:?}"),
    }
}

#[test]
fn download_reports_unresolvable_variant_after_making_temp_dir() {
    let c = Config::default();
    let mut m = up_to_master(&c);
    let bytes = master_with(&[(1920, 1080, "http://[bad")]);
    step(&mut m, DownloadEvent::MasterPlaylistReceived { bytes }, &c);
    match through_temp_dir(&mut m, &c) {
        DownloadAction::Fail(e) => assert_eq!(e, AnimeDownloadError::UrlParseError("invalid IPv6 address".to_string())),
        other => panic!("unexpected action {other:?}"),
    }
}

#[test]
fn download_caps_segment_concurrency_at_five() {
    let c = Config { multi_downloading_segment: 8, ..Config::default() };
    let mut m = up_to_master(&c);
    step(&mut m, DownloadEvent::MasterPlaylistReceived { bytes: master_playlist() }, &c);
    through_temp_dir(&mut m, &c);
    step(&mut m, DownloadEvent::MediaPlaylistReceived { bytes: media_playlist() }, &c);
    match step(&mut m, DownloadEvent::Completed, &c) {
        DownloadAction::DownloadSegments { concurrency, .. } => assert_eq!(concurrency, 5),
        other => panic!("unexpected action {other:?}"),
    }
}
