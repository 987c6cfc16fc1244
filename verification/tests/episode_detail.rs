use ani_dock::anime::episode_detail::EpisodeDetail;
use ani_dock::anime::error::EpisodeDetailBuildError;

const ANIME_TITLES: [&str; 5] = [
    "進擊的巨人 [1]",
    "劇場版 關於我轉生變成史萊姆這檔事 蒼海之淚篇 [電影]",
    "無職轉生～到了異世界就拿出真本事～第三季 [2]",
    "進擊的巨人 [1] [中文配音]",
    "Re:Zero/新編集版? [2]",
];

#[test]
fn get_episode() {
    assert_eq!(
        ANIME_TITLES
            .iter()
            .map(|t| EpisodeDetail::get_episode(t).unwrap())
            .collect::<Vec<String>>(),
        vec!["1", "電影", "2", "1", "2"]
    );
}

#[test]
fn get_episode_reports_missing_marker() {
    assert_eq!(
        EpisodeDetail::get_episode("沒有集數標記的動畫"),
        Err(EpisodeDetailBuildError::Plain("could not find episode".to_string()))
    );
}

#[test]
fn get_season() {
    assert_eq!(
        ANIME_TITLES
            .iter()
            .map(|t| EpisodeDetail::get_season(t))
            .collect::<Vec<Option<String>>>(),
        vec![None, None, Some(String::from("第三季")), None, None]
    );
}

#[test]
fn get_extra() {
    assert_eq!(
        ANIME_TITLES
            .iter()
            .map(|t| EpisodeDetail::get_extra(t))
            .collect::<Vec<Option<String>>>(),
        vec![None, None, None, Some(String::from("中文配音")), None]
    )
}

#[test]
fn get_season_with_extra() {
    assert_eq!(
        ANIME_TITLES
            .iter()
            .map(|t| EpisodeDetail::get_season_with_extra(
                &EpisodeDetail::get_episode(t).unwrap(),
                EpisodeDetail::get_season(t).as_deref(),
                EpisodeDetail::get_extra(t).as_deref()
            ))
            .collect::<Vec<String>>(),
        vec!["第一季", "電影", "第三季", "第一季 中文配音", "第一季"]
    )
}

#[test]
fn get_season_with_extra_joins_season_and_extra() {
    assert_eq!(
        EpisodeDetail::get_season_with_extra("3", Some("第二季"), Some("中文配音")),
        "第二季 中文配音"
    );
}

#[test]
fn get_name() {
    assert_eq!(
        ANIME_TITLES
            .iter()
            .map(|t| EpisodeDetail::get_name(
                t,
                EpisodeDetail::get_season(t).as_deref(),
                EpisodeDetail::get_extra(t).as_deref(),
                &EpisodeDetail::get_episode(t).unwrap()
            ))
            .collect::<Vec<String>>(),
        vec![
            "進擊的巨人",
            "劇場版 關於我轉生變成史萊姆這檔事 蒼海之淚篇",
            "無職轉生～到了異世界就拿出真本事～",
            "進擊的巨人",
            "Re:Zero/新編集版?"
        ]
    );
}

#[test]
fn bangumi_dir() {
    let expected = [
        ("進擊的巨人", "第一季"),
        ("劇場版 關於我轉生變成史萊姆這檔事 蒼海之淚篇", "電影"),
        ("無職轉生～到了異世界就拿出真本事～", "第三季"),
        ("進擊的巨人", "第一季 中文配音"),
        ("Re：Zero／新編集版？", "第一季"),
    ];

    for (title, (name, season)) in ANIME_TITLES.iter().zip(expected) {
        let episode_detail = EpisodeDetail::from_title(title).unwrap();

        assert_eq!(
            episode_detail.bangumi_dir(),
            (name.to_string(), season.to_string())
        );
    }
}

#[test]
fn get_filename() {
    let expected = [
        (1080, "進擊的巨人[1][1080P].mp4"),
        (
            720,
            "劇場版 關於我轉生變成史萊姆這檔事 蒼海之淚篇[電影][720P].mp4",
        ),
        (1080, "無職轉生～到了異世界就拿出真本事～[2][1080P].mp4"),
        (1080, "進擊的巨人[1][1080P].mp4"),
        (540, "Re：Zero／新編集版？[2][540P].mp4"),
    ];

    for (title, (resolution, expected)) in ANIME_TITLES.iter().zip(expected) {
        let episode_detail = EpisodeDetail::from_title(title).unwrap();

        assert_eq!(episode_detail.get_filename(resolution), expected);
    }
}
