use ani_dock::text::{decimal_string, parse_u32, replace_str, trim_str};
use ani_dock::util::{get_referer, random_string, santitize_path_segment, ORIGIN};

#[test]
fn random_string_has_requested_length() {
    for len in [0, 1, 12, 100] {
        assert_eq!(random_string(len).len(), len as usize);
    }
}

#[test]
fn random_string_only_contains_supported_characters() {
    let chars: Vec<char> = "abcdefghijklmnopqrstuvwxyz0123456789".chars().collect();
    let value = random_string(1_000);

    assert!(value.chars().all(|character| chars.contains(&character)));
}

#[test]
fn get_referer_builds_anime_video_url() {
    assert_eq!(get_referer(49780), format!("{ORIGIN}/animeVideo.php?sn=49780"));
}

#[test]
fn get_referer_of_zero_and_max() {
    assert_eq!(get_referer(0), format!("{ORIGIN}/animeVideo.php?sn=0"));
    assert_eq!(get_referer(u32::MAX), format!("{ORIGIN}/animeVideo.php?sn=4294967295"));
}

#[test]
fn santitize_path_segment_replaces_unsupported_characters() {
    assert_eq!(
        santitize_path_segment(r#"a|b?c*d<e>f"g:h\i/j"#),
        "a｜b？c＊d＜e＞f＂g：h＼i／j"
    );
}

#[test]
fn santitize_path_segment_preserves_supported_characters() {
    let path_segment = "劇場版 關於我轉生變成史萊姆這檔事 [電影].mp4";

    assert_eq!(santitize_path_segment(path_segment), path_segment);
}

#[test]
fn santitize_path_segment_is_idempotent() {
    let once = santitize_path_segment("Re:Zero/新編集版?");
    assert_eq!(santitize_path_segment(&once), once);
}

#[test]
fn decimal_string_formats_like_display() {
    for n in [0u64, 7, 10, 99, 100, 1080, u64::MAX] {
        assert_eq!(decimal_string(n), n.to_string());
    }
}

#[test]
fn replace_str_matches_std() {
    for (s, pat, rep) in [
        ("測試動畫 [1]", "[1]", ""),
        ("aaa", "aa", "b"),
        ("ab", "", "x"),
        ("", "", "x"),
        ("abc", "z", "y"),
        ("[1][1]", "[1]", "-"),
    ] {
        assert_eq!(replace_str(s, pat, rep), s.replace(pat, rep));
    }
}

#[test]
fn trim_str_matches_std() {
    for s in ["  a b  ", "\n\t測試\u{3000}", "", "   ", "x"] {
        assert_eq!(trim_str(s), s.trim());
        assert_eq!(trim_str(&trim_str(s)), trim_str(s));
    }
}

#[test]
fn parse_u32_matches_std() {
    for s in ["0", "49780", "+12", "", "+", "-1", "12a", "4294967295", "4294967296", "007"] {
        assert_eq!(parse_u32(s), s.parse::<u32>().ok());
    }
}
