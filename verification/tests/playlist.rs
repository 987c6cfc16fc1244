use ani_dock::anime::error::AnimeDownloadError;
use ani_dock::anime::playlist::{key_uris, select_variant, Segment, Variant};
use ani_dock::util::{join_each, FileTask};

fn v(uri: &str, height: Option<u64>) -> Variant {
    Variant { uri: uri.to_string(), resolution: height.map(|h| (h * 16 / 9, h)) }
}

#[test]
fn select_variant_takes_exact_height() {
    let vs = vec![v("a", Some(360)), v("b", Some(720)), v("c", Some(1080))];
    assert_eq!(select_variant(720, false, &vs).unwrap().uri, "b");
    assert_eq!(select_variant(720, true, &vs).unwrap().uri, "b");
}

#[test]
fn select_variant_takes_nearest_height_earlier_on_tie() {
    let vs = vec![v("a", Some(360)), v("b", Some(720))];
    assert_eq!(select_variant(540, false, &vs).unwrap().uri, "a");
    assert_eq!(select_variant(1080, false, &vs).unwrap().uri, "b");
    assert_eq!(select_variant(0, false, &vs).unwrap().uri, "a");
}

#[test]
fn select_variant_keeps_last_variant_of_repeated_height() {
    let vs = vec![v("a", Some(720)), v("b", Some(360)), v("c", Some(720))];
    assert_eq!(select_variant(720, false, &vs).unwrap().uri, "c");
    assert_eq!(select_variant(700, false, &vs).unwrap().uri, "c");
}

#[test]
fn select_variant_reports_locked_missing_height() {
    let vs = vec![v("a", Some(360)), v("b", Some(720)), v("c", Some(360))];
    assert_eq!(
        select_variant(1080, true, &vs).unwrap_err(),
        AnimeDownloadError::Plain(
            "there is no selected resolution, and locked resolution. available resolutions: [360, 720]".to_string()
        )
    );
    assert_eq!(
        select_variant(1080, true, &Vec::new()).unwrap_err(),
        AnimeDownloadError::Plain(
            "there is no selected resolution, and locked resolution. available resolutions: []".to_string()
        )
    );
}

#[test]
fn select_variant_reports_variant_without_resolution() {
    let vs = vec![v("a", Some(360)), v("b", None)];
    assert_eq!(
        select_variant(360, false, &vs).unwrap_err(),
        AnimeDownloadError::Plain("include variant without resolution: \n{variant:#?}".to_string())
    );
}

fn seg(uri: &str, key: Option<&str>) -> Segment {
    Segment { uri: uri.to_string(), key_uri: key.map(|k| k.to_string()) }
}

#[test]
fn key_uris_lists_each_key_once_in_order() {
    let ss = vec![
        seg("0.ts", Some("k1")),
        seg("1.ts", None),
        seg("2.ts", Some("k2")),
        seg("3.ts", Some("k1")),
        seg("4.ts", Some("k3")),
    ];
    assert_eq!(key_uris(&ss), vec!["k1", "k2", "k3"]);
    assert_eq!(key_uris(&Vec::new()), Vec::<String>::new());
}

#[test]
fn join_each_resolves_against_base() {
    let base = "https://example.net/a/b/list.m3u8?x=1";
    let inputs = vec!["0.ts".to_string(), "/root.ts".to_string(), "https://other.net/z".to_string()];
    assert_eq!(
        join_each(base, &inputs),
        vec![
            FileTask { url: Ok("https://example.net/a/b/0.ts".to_string()), name: "0.ts".to_string() },
            FileTask { url: Ok("https://example.net/root.ts".to_string()), name: "/root.ts".to_string() },
            FileTask { url: Ok("https://other.net/z".to_string()), name: "https://other.net/z".to_string() },
        ]
    );
    assert_eq!(join_each(base, &Vec::new()), Vec::new());
}

#[test]
fn join_each_reports_unparsable_base_per_input() {
    let inputs = vec!["0.ts".to_string()];
    assert_eq!(
        join_each("not a url", &inputs),
        vec![FileTask { url: Err("relative URL without a base".to_string()), name: "0.ts".to_string() }]
    );
    assert!(join_each("not a url", &Vec::new()).is_empty());
}

#[test]
fn join_each_keeps_each_input_apart() {
    let inputs = vec!["a.ts".to_string(), "http://[bad".to_string(), "b.ts".to_string()];
    let tasks = join_each("https://example.net/x/", &inputs);
    assert_eq!(tasks[0].url, Ok("https://example.net/x/a.ts".to_string()));
    assert_eq!(tasks[1].url, Err("invalid IPv6 address".to_string()));
    assert_eq!(tasks[2].url, Ok("https://example.net/x/b.ts".to_string()));
}
