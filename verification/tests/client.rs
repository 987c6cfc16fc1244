use ani_dock::config::{Config, DEFAULT_USER_AGENT};
use ani_dock::request::client::{cookie_pairs, default_headers, emulation_for_user_agent, Emulation};
use ani_dock::util::ORIGIN;

#[test]
fn add_cookie_header_to_jar_preserves_all_cookie_pairs() {
    let pairs = cookie_pairs("foo=bar; session=abc==; ; BAHAID=123");

    assert_eq!(pairs.join("; "), "foo=bar; session=abc==; BAHAID=123");
}

#[test]
fn cookie_pairs_trims_and_drops_empty_records() {
    assert_eq!(cookie_pairs(""), Vec::<String>::new());
    assert_eq!(cookie_pairs(" ; ;;"), Vec::<String>::new());
    assert_eq!(cookie_pairs("a=1"), vec!["a=1".to_string()]);
    assert_eq!(cookie_pairs("  a=1 ;b=2;  "), vec!["a=1".to_string(), "b=2".to_string()]);
}

#[test]
fn get_adds_custom_headers_without_replacing_emulated_user_agent() {
    let headers = default_headers();
    let get = |name: &str| {
        headers
            .iter()
            .find(|(n, _)| n == name)
            .map(|(_, v)| v.as_str())
    };

    assert!(get("user-agent").is_none());
    assert_eq!(get("accept-language"), Some("zh-TW,zh;q=0.9,en-US;q=0.8,en;q=0.6"));
    assert_eq!(get("accept-encoding"), Some("gzip, deflate"));
    assert_eq!(get("cache-control"), Some("max-age=0"));
    assert_eq!(get("origin"), Some(ORIGIN));
}

#[test]
fn default_headers_are_in_order() {
    let names: Vec<String> = default_headers().into_iter().map(|(n, _)| n).collect();
    assert_eq!(names, vec!["accept-language", "accept", "accept-encoding", "cache-control", "origin"]);
}

#[test]
fn emulation_follows_user_agent() {
    assert_eq!(
        emulation_for_user_agent("Mozilla/5.0 (X11; Linux x86_64; rv:109.0) Gecko/20100101 Firefox/115.0"),
        Emulation::Firefox109
    );
    assert_eq!(emulation_for_user_agent("FIREFOX"), Emulation::Firefox109);
    assert_eq!(emulation_for_user_agent(DEFAULT_USER_AGENT), Emulation::Edge134);
    assert_eq!(emulation_for_user_agent(&Config::default().ua), Emulation::Edge134);
    assert_eq!(emulation_for_user_agent("Mozilla/5.0 Chrome/146.0.0.0 Safari/537.36"), Emulation::Chrome137);
    assert_eq!(emulation_for_user_agent(""), Emulation::Chrome137);
    assert_eq!(emulation_for_user_agent("ED"), Emulation::Chrome137);
    assert_eq!(emulation_for_user_agent("Firefox Edg"), Emulation::Firefox109);
}
