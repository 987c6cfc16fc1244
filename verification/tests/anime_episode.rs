use std::rc::Rc;

use ani_dock::anime_episode::{AnimeEpisode, AnimeEpisodeError, EpisodeSn};
use ani_dock::config::Config;
use ani_dock::sn_list::SnDetail;
use indexmap::IndexMap;

fn new_test_anime_episode(sn_code: &str) -> AnimeEpisode {
    let config = Rc::new(Config {
        proxy: Some("http://127.0.0.1:1".to_string()),
        ..Config::default()
    });

    AnimeEpisode::new(
        SnDetail {
            code: sn_code.to_string(),
            mode: None,
        },
        config,
    )
}

#[test]
fn get_title_returns_anime_title() {
    let content = r#"
        <h1>頁面中的其他標題</h1>
        <div class="anime_name">
            <h1>測試動畫 [1]</h1>
        </div>
    "#;

    let title = AnimeEpisode::get_title(content).expect("anime title should exist");

    assert_eq!(title, "測試動畫 [1]");
}

#[test]
fn get_title_reports_missing_title() {
    let content = r#"
        <section class="season">
            <ul>
                <li class="playing">
                    <a data-ani-video-sn="1">1</a>
                </li>
            </ul>
        </section>
    "#;

    let result = AnimeEpisode::get_title(content);

    assert!(matches!(
        result,
        Err(AnimeEpisodeError::ParseHtmlError(message))
            if message == "could not find anime's title"
    ));
}

#[test]
fn get_episode_prefers_playing_episode_over_title() {
    let content = r#"
        <section class="season">
            <ul>
                <li class="playing"><a>7</a></li>
            </ul>
        </sertion>
    "#;

    let episode = AnimeEpisode::get_episode(content, "測試動畫 [99]");

    assert_eq!(episode, "7");
}

#[test]
fn get_episode_extracts_strict_title_formats() {
    let root = String::new();

    for (title, expected) in [
        ("測試動畫 [1]", "1"),
        ("測試動畫 [1.5]", "1.5"),
        ("測試動畫 [12 SP]", "12 SP"),
        ("測試動畫 [SP]", "SP"),
        ("測試動畫 [OVA]", "OVA"),
        ("測試動畫 [電影]", "電影"),
    ] {
        assert_eq!(
            AnimeEpisode::get_episode(&root, title),
            expected,
            "failed to extract episode from {title}"
        );
    }
}

#[test]
fn get_episode_prefers_strict_match_over_later_loose_match() {
    let episode = AnimeEpisode::get_episode("", "測試動畫 [12] [中文配音]");

    assert_eq!(episode, "12");
}

#[test]
fn get_episode_uses_last_loose_title_match() {
    let episode = AnimeEpisode::get_episode("", "測試動畫 [中文配音] [特別篇]");

    assert_eq!(episode, "特別篇");
}

#[test]
fn get_episode_defaults_to_one() {
    let episode = AnimeEpisode::get_episode("", "沒有集數標記的動畫");

    assert_eq!(episode, "1");
}

#[test]
fn episode_from_candidates_prefers_in_order() {
    assert_eq!(
        AnimeEpisode::episode_from_candidates(
            Some("7".to_string()),
            Some("[1]".to_string()),
            Some("[2]".to_string())
        ),
        "7"
    );
    assert_eq!(
        AnimeEpisode::episode_from_candidates(None, Some("[1]".to_string()), Some("[2]".to_string())),
        "1"
    );
    assert_eq!(
        AnimeEpisode::episode_from_candidates(None, None, Some("[2]".to_string())),
        "2"
    );
    assert_eq!(AnimeEpisode::episode_from_candidates(None, None, None), "1");
}

#[test]
fn get_name_removes_episode_and_normalizes_whitespace() {
    for (title, episode, expected) in [
        ("測試動畫 [1]", "1", "測試動畫"),
        ("  測試   動畫\n第三季 [1.5]  ", "1.5", "測試 動畫 第三季"),
        ("測試動畫 [中文配音] [12]", "12", "測試動畫 [中文配音]"),
        ("沒有集數標記的動畫", "1", "沒有集數標記的動畫"),
    ] {
        assert_eq!(
            AnimeEpisode::get_name(title, episode),
            expected,
            "failed to extract anime name from {title}"
        );
    }
}

#[test]
fn get_episode_list_uses_default_main_category() {
    let content = r#"
        <section class="season">
            <ul>
                <li><a data-ani-video-sn="101">1</a></li>
                <li><a data-ani-video-sn="102">2</a></li>
            </ul>
        </section>
    "#;
    let anime_episode = new_test_anime_episode("101");

    let episode_list = anime_episode
        .get_episode_list(content, "1")
        .expect("episode list should parse");

    assert_eq!(
        episode_list,
        IndexMap::from([(
            "本篇".to_string(),
            vec![EpisodeSn::new("1", "101"), EpisodeSn::new("2", "102")],
        )])
    );
}

#[test]
fn get_episode_list_preserves_categories_and_episode_order() {
    let content = r#"
        <section class="season">
            <p>本篇</p>
            <ul>
                <li><a data-ani-video-sn="101">1</a></li>
                <li><a data-ani-video-sn="102">2</a></li>
            </ul>
            <p>中文配音</p>
            <ul>
                <li><a data-ani-video-sn="201">1</a></li>
                <li><a data-ani-video-sn="202">2</a></li>
            </ul>
        </section>
    "#;
    let anime_episode = new_test_anime_episode("101");

    let episode_list = anime_episode
        .get_episode_list(content, "1")
        .expect("episode list should parse");

    assert_eq!(
        episode_list,
        IndexMap::from([
            (
                "本篇".to_string(),
                vec![EpisodeSn::new("1", "101"), EpisodeSn::new("2", "102")],
            ),
            (
                "中文配音".to_string(),
                vec![EpisodeSn::new("1", "201"), EpisodeSn::new("2", "202")],
            ),
        ])
    );
}

#[test]
fn get_episode_list_reports_missing_episode_sn() {
    let content = r#"
        <section class="season">
            <ul>
                <li><a>1</a></li>
            </ul>
        </section>
    "#;
    let anime_episode = new_test_anime_episode("101");

    let result = anime_episode.get_episode_list(content, "1");

    assert!(matches!(
        result,
        Err(AnimeEpisodeError::ParseHtmlError(message))
            if message == "could not find sn for episode 1"
    ));
}

#[test]
fn get_episode_list_reports_mismatched_episode_groups() {
    let content = r#"
        <section class="season">
            <p>本篇</p>
            <ul>
                <li><a data-ani-video-sn="1">1</a></li>
            </ul>
            <p>中文配音</p>
        </section>
    "#;
    let anime_episode = new_test_anime_episode("101");

    let result = anime_episode.get_episode_list(content, "1");

    assert!(matches!(
        result,
        Err(AnimeEpisodeError::ParseHtmlError(message))
            if message
                == "episode category count does not match episode list count: 2 != 1"
    ));
}

#[test]
fn get_episode_list_uses_current_sn_when_season_is_empty() {
    let anime_episode = new_test_anime_episode("777");

    let episode_list = anime_episode
        .get_episode_list("", "電影")
        .expect("single episode list should parse");

    assert_eq!(
        episode_list,
        IndexMap::from([("本篇".to_string(), vec![EpisodeSn::new("電影", "777")],)])
    );
}

#[test]
fn get_episode_list_keeps_first_place_of_repeated_category() {
    let content = r#"
        <section class="season">
            <p>本篇</p>
            <ul><li><a data-ani-video-sn="1">1</a></li></ul>
            <p>特別篇</p>
            <ul><li><a data-ani-video-sn="2">SP</a></li></ul>
            <p>本篇</p>
            <ul><li><a data-ani-video-sn="3">2</a></li></ul>
        </section>
    "#;
    let anime_episode = new_test_anime_episode("1");

    let episode_list = anime_episode
        .get_episode_list(content, "1")
        .expect("episode list should parse");

    assert_eq!(
        episode_list.keys().map(String::as_str).collect::<Vec<_>>(),
        vec!["本篇", "特別篇"]
    );
    assert_eq!(episode_list["本篇"], vec![EpisodeSn::new("2", "3")]);
}

#[test]
fn parse_content_reads_whole_page() {
    let content = r#"
        <div class="anime_name"><h1>測試動畫 第三季 [2]</h1></div>
        <section class="season">
            <ul>
                <li><a data-ani-video-sn="11">1</a></li>
                <li class="playing"><a data-ani-video-sn="12">2</a></li>
            </ul>
        </section>
    "#;
    let anime_episode = new_test_anime_episode("12");

    let resolved = anime_episode
        .parse_content(content.to_string())
        .expect("page should parse");

    assert_eq!(resolved.title(), "測試動畫 第三季 [2]");
    assert_eq!(resolved.episode(), "2");
    assert_eq!(resolved.name(), "測試動畫 第三季");
    assert_eq!(
        resolved.episode_list(),
        &IndexMap::from([(
            "本篇".to_string(),
            vec![EpisodeSn::new("1", "11"), EpisodeSn::new("2", "12")]
        )])
    );
}

#[test]
fn page_request_builds_url_and_referer() {
    let anime_episode = new_test_anime_episode("49903");
    assert_eq!(
        anime_episode.page_request(),
        Some((
            "https://ani.gamer.com.tw/animeVideo.php?sn=49903".to_string(),
            "https://ani.gamer.com.tw/animeVideo.php?sn=49903".to_string()
        ))
    );
    assert_eq!(new_test_anime_episode("abc").page_request(), None);
}

#[test]
fn anime_episode_keeps_its_config() {
    let config = ani_dock::config::Config { ads_time: 9, ..ani_dock::config::Config::default() };
    let e = ani_dock::anime_episode::AnimeEpisode::new(
        ani_dock::sn_list::SnDetail { code: "1".to_string(), mode: None },
        std::rc::Rc::new(config.clone()),
    );
    assert_eq!(e.config(), &config);
}
