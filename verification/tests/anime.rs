use ani_dock::anime::episode::Episode;
use ani_dock::anime::error::AnimeDownloadError;
use ani_dock::anime::Anime;
use ani_dock::device_id::DeviceId;
use ani_dock::request::anime_video::{Anime as ApiAnime, Episode as ApiEpisode, Video};
use indexmap::IndexMap;

fn episode() -> Episode {
    Episode::new("cover.jpg", 1, 49780, DeviceId::default())
}

#[test]
fn episode_getters_return_constructor_values() {
    let e = episode();
    assert_eq!(e.cover(), "cover.jpg");
    assert_eq!(e.episode(), 1);
    assert_eq!(e.sn(), 49780);
    assert_eq!(e.device_id().get_cloned(), None);
}

#[test]
fn episodes_compare_without_device_id() {
    let a = Episode::new("c", 2, 7, DeviceId::default());
    let shared = DeviceId::default();
    shared.set(Some("x".to_string()));
    let b = Episode::new("c", 2, 7, shared);
    assert_eq!(a, b);
    assert_ne!(a, Episode::new("c", 3, 7, DeviceId::default()));
}

#[test]
fn episode_urls_follow_site_protocol() {
    let e = episode();
    assert_eq!(e.referer(), "https://ani.gamer.com.tw/animeVideo.php?sn=49780");
    assert_eq!(e.unlock_url(None), "https://ani.gamer.com.tw/ajax/unlock.php?sn=49780&ttl=0");
    assert_eq!(e.unlock_url(Some(5)), "https://ani.gamer.com.tw/ajax/unlock.php?sn=49780&ttl=5");
    assert_eq!(
        e.check_lock_url(Some("dev".to_string())),
        Ok("https://ani.gamer.com.tw/ajax/checklock.php?device=dev&sn=49780".to_string())
    );
    assert_eq!(e.check_lock_url(None), Err(AnimeDownloadError::DeviceIdDidNotExist));
    assert_eq!(e.start_ad_url(), "https://ani.gamer.com.tw/ajax/videoCastcishu.php?sn=49780&s=194699");
    assert_eq!(
        e.skip_ad_url(),
        "https://ani.gamer.com.tw/ajax/videoCastcishu.php?sn=49780&s=194699&ad=end"
    );
    assert_eq!(e.video_start_url(), "https://ani.gamer.com.tw/ajax/videoStart.php?sn=49780");
    assert_eq!(
        e.playlist_url(Some("dev".to_string())),
        Ok("https://ani.gamer.com.tw/ajax/m3u8.php?sn=49780&device=dev".to_string())
    );
    assert_eq!(e.playlist_url(None), Err(AnimeDownloadError::DeviceIdDidNotExist));
    assert_eq!(
        ani_dock::anime::episode::video_info_url(49780),
        "https://api.gamer.com.tw/anime/v1/video.php?videoSn=49780"
    );
}

#[test]
fn device_id_url_adds_known_id() {
    assert_eq!(
        Episode::device_id_url(None),
        Ok("https://ani.gamer.com.tw/ajax/getdeviceid.php".to_string())
    );
    assert_eq!(
        Episode::device_id_url(Some("abc123".to_string())),
        Ok("https://ani.gamer.com.tw/ajax/getdeviceid.php?id=abc123".to_string())
    );
    assert_eq!(Episode::device_id_query(Some("abc".to_string())), Some("id=abc".to_string()));
    assert_eq!(Episode::device_id_query(None), None);
}

#[test]
fn token_request_needs_device_id() {
    let e = episode();
    assert_eq!(e.token_query(true, None), Err(AnimeDownloadError::DeviceIdDidNotExist));
    assert_eq!(e.token_url(false, None), Err(AnimeDownloadError::DeviceIdDidNotExist));
}

#[test]
fn token_query_orders_pairs() {
    let e = episode();
    let pairs = e.token_query(true, Some("dev".to_string())).unwrap();
    assert_eq!(pairs.len(), 4);
    assert_eq!(pairs[0], ("adId".to_string(), "0".to_string()));
    assert_eq!(pairs[1], ("sn".to_string(), "49780".to_string()));
    assert_eq!(pairs[2], ("device".to_string(), "dev".to_string()));
    assert_eq!(pairs[3].0, "hash");
    assert_eq!(pairs[3].1.len(), 12);
    let pairs = e.token_query(false, Some("dev".to_string())).unwrap();
    assert_eq!(pairs.len(), 3);
    assert_eq!(pairs[0], ("sn".to_string(), "49780".to_string()));
}

#[test]
fn token_url_encodes_pairs_as_query() {
    let e = episode();
    let url = e.token_url(true, Some("dev".to_string())).unwrap();
    let prefix = "https://ani.gamer.com.tw/ajax/token.php?adId=0&sn=49780&device=dev&hash=";
    assert!(url.starts_with(prefix), "{url}");
    let hash = &url[prefix.len()..];
    assert_eq!(hash.len(), 12);
    assert!(hash.chars().all(|c| c.is_ascii_lowercase() || c.is_ascii_digit()));
    let url = e.token_url(false, Some("a b".to_string())).unwrap();
    assert!(url.starts_with("https://ani.gamer.com.tw/ajax/token.php?sn=49780&device=a+b&hash="), "{url}");
}

#[test]
fn anime_from_video_keeps_categories_in_order() {
    let mut episodes = IndexMap::new();
    episodes.insert(
        "0".to_string(),
        vec![ApiEpisode::new("c1".to_string(), 1, 3500, 0), ApiEpisode::new("c2".to_string(), 2, 3501, 0)],
    );
    episodes.insert("1".to_string(), vec![ApiEpisode::new("c3".to_string(), 1, 20273, 0)]);
    let api = ApiAnime::new(59221, 3499, "cover".to_string(), "d".to_string(), episodes, "進擊的巨人 [1]".to_string());
    let video = Video::new(api);
    let id = DeviceId::default();
    let anime = Anime::from_video(&video, &id);
    let again = Anime::from_video(&video, &DeviceId::default());
    assert_eq!(anime, again);
    let text = format!("{anime:?}");
    assert!(text.contains("sn: 3499"), "{text}");
    assert!(text.contains("進擊的巨人 [1]"), "{text}");
    let first = text.find("3500").unwrap();
    let second = text.find("3501").unwrap();
    let third = text.find("20273").unwrap();
    assert!(first < second && second < third, "{text}");
}

#[test]
fn anime_from_video_gives_every_episode_the_device_id() {
    let mut episodes = IndexMap::new();
    episodes.insert("0".to_string(), vec![ApiEpisode::new("c1".to_string(), 1, 3500, 0)]);
    episodes.insert("1".to_string(), vec![ApiEpisode::new("c3".to_string(), 1, 20273, 0)]);
    let api = ApiAnime::new(1, 2, "cover".to_string(), "d".to_string(), episodes, "t [1]".to_string());
    let id = DeviceId::default();
    let anime = Anime::from_video(&Video::new(api), &id);
    id.set(Some("shared-device-id".to_string()));
    assert_eq!(format!("{anime:?}").matches("shared-device-id").count(), 2);
}
