//! What an episode title says: episode marker, season, extra version and the
//! anime's name, and the names of the files that a download produces.

use vstd::prelude::*;
use crate::anime::error::EpisodeDetailBuildError;
use crate::pattern::{
    bracket_inner, find_first, find_last, first_match, last_match, regex_match_texts,
    replace_matches, replaced_or_same, strip_brackets, EXTRA_FILTER_PATTERN, FULL_EPISODE_PATTERN,
    MIN_EPISODE_PATTERN, SEASON_FILTER_PATTERN, WHITESPACES_PATTERN,
};
use crate::text::{
    bracket, bracketed, decimal, lemma_replace_all_front, lemma_replace_all_none,
    lemma_replace_all_skips, lemma_trim_trailing_space, push_char, push_decimal, replace_all,
    replace_str, str_equal, trim, trim_str,
};
use crate::util::{sanitized, santitize_path_segment};

verus! {

/// The episode marker chosen from the first strict match and the last loose
/// match: the strict one when there is one, else the loose one, in both cases
/// without its brackets.
pub open spec fn pick_episode(strict: Option<Seq<char>>, loose: Option<Seq<char>>) -> Option<Seq<char>> {
    match strict {
        Some(m) => bracket_inner(m),
        None => match loose {
            Some(m) => bracket_inner(m),
            None => None,
        },
    }
}

/// The episode marker of `title`, such as `1`, `1.5` or `電影`.
pub open spec fn title_episode(title: Seq<char>) -> Option<Seq<char>> {
    pick_episode(
        first_match(regex_match_texts(MIN_EPISODE_PATTERN@, title)),
        last_match(regex_match_texts(FULL_EPISODE_PATTERN@, title)),
    )
}

/// The season marker of `title`, such as `第三季`.
pub open spec fn title_season(title: Seq<char>) -> Option<Seq<char>> {
    first_match(regex_match_texts(SEASON_FILTER_PATTERN@, title))
}

/// The extra version of `title` (`特別篇` or `中文配音`), without brackets.
pub open spec fn title_extra(title: Seq<char>) -> Option<Seq<char>> {
    match first_match(regex_match_texts(EXTRA_FILTER_PATTERN@, title)) {
        Some(m) => bracket_inner(m),
        None => None,
    }
}

/// The season directory name: season and extra joined by a space; a missing
/// season counts as the first season, except for a movie without either.
pub open spec fn season_label(episode: Seq<char>, season: Option<Seq<char>>, extra: Option<Seq<char>>) -> Seq<char> {
    match (season, extra) {
        (Some(s), Some(e)) => s + " "@ + e,
        (Some(s), None) => s,
        (None, Some(e)) => "第一季 "@ + e,
        (None, None) => if episode == "電影"@ {
            "電影"@
        } else {
            "第一季"@
        },
    }
}

/// The anime's name: the title without its `[episode]`, season and `[extra]`
/// markers, trimmed, each run of white space made one space.
pub open spec fn detail_name(
    title: Seq<char>,
    season: Option<Seq<char>>,
    extra: Option<Seq<char>>,
    episode: Seq<char>,
) -> Seq<char> {
    let t1 = replace_all(title, bracketed(episode), Seq::empty());
    let t2 = match season {
        Some(s) => replace_all(t1, s, Seq::empty()),
        None => t1,
    };
    let t3 = match extra {
        Some(e) => replace_all(t2, bracketed(e), Seq::empty()),
        None => t2,
    };
    replaced_or_same(WHITESPACES_PATTERN@, trim(t3), " "@)
}

/// The abstract value of an [`EpisodeDetail`].
pub struct EpisodeDetailView {
    pub episode: Seq<char>,
    pub season: Seq<char>,
    pub name: Seq<char>,
}

/// What the library keeps of one episode's title.
pub struct EpisodeDetail {
    /// The episode marker without `[]`, such as `1`, `2`, `電影`.
    episode: String,
    /// The season directory name, such as `第一季 中文配音`.
    season: String,
    /// The anime's name.
    name: String,
}

impl View for EpisodeDetail {
    type V = EpisodeDetailView;

    closed spec fn view(&self) -> EpisodeDetailView {
        EpisodeDetailView { episode: self.episode@, season: self.season@, name: self.name@ }
    }
}

/// The detail that a title with episode marker `episode` gives.
pub open spec fn detail_of(title: Seq<char>, episode: Seq<char>) -> EpisodeDetailView {
    EpisodeDetailView {
        episode,
        season: season_label(episode, title_season(title), title_extra(title)),
        name: detail_name(title, title_season(title), title_extra(title), episode),
    }
}

/// The file name of an episode downloaded at `resolution`:
/// `{name}[{episode}][{resolution}P].mp4`, made path-safe.
pub open spec fn file_name_of(d: EpisodeDetailView, resolution: nat) -> Seq<char> {
    sanitized(d.name + bracketed(d.episode) + "["@ + decimal(resolution) + "P].mp4"@)
}

impl EpisodeDetail {
    /// Reads episode marker, season and name from an episode title.
    pub fn from_title(title: &str) -> (r: Result<EpisodeDetail, EpisodeDetailBuildError>)
        ensures
            match title_episode(title@) {
                Some(e) => r matches Ok(d) && d@ == detail_of(title@, e),
                None => r matches Err(EpisodeDetailBuildError::Plain(m)) && m@
                    == "could not find episode"@,
            },
    {
        let episode = match Self::get_episode(title) {
            Ok(e) => e,
            Err(err) => return Err(err),
        };
        let season = Self::get_season(title);
        let extra = Self::get_extra(title);
        let season_with_extra = Self::get_season_with_extra(
            episode.as_str(),
            Self::as_opt_str(&season),
            Self::as_opt_str(&extra),
        );
        let name = Self::get_name(
            title,
            Self::as_opt_str(&season),
            Self::as_opt_str(&extra),
            episode.as_str(),
        );
        Ok(EpisodeDetail { episode, season: season_with_extra, name })
    }

    fn as_opt_str(o: &Option<String>) -> (r: Option<&str>)
        ensures
            r.deep_view() == o.deep_view(),
    {
        match o {
            Some(s) => Some(s.as_str()),
            None => None,
        }
    }

    /// The two path segments, anime name then season, of the directory that
    /// the episode is stored in below the download root; both made path-safe.
    pub fn bangumi_dir(&self) -> (r: (String, String))
        ensures
            r.0@ == sanitized(self@.name),
            r.1@ == sanitized(self@.season),
    {
        (santitize_path_segment(self.name.as_str()), santitize_path_segment(self.season.as_str()))
    }

    /// The file name of this episode downloaded at `resolution`.
    pub fn get_filename(&self, resolution: u64) -> (r: String)
        ensures
            r@ == file_name_of(self@, resolution as nat),
    {
        let mut s = String::from_str(self.name.as_str());
        let b = bracket(self.episode.as_str());
        s.append(b.as_str());
        push_char(&mut s, '[');
        push_decimal(&mut s, resolution);
        s.append("P].mp4");
        proof {
            reveal_strlit("[");
            assert(s@ =~= self@.name + bracketed(self@.episode) + "["@ + decimal(resolution as nat)
                + "P].mp4"@);
        }
        santitize_path_segment(s.as_str())
    }

    /// Chooses the episode marker from the first strict and the last loose match.
    pub fn episode_from_matches(strict: Option<String>, loose: Option<String>) -> (r: Result<
        String,
        EpisodeDetailBuildError,
    >)
        ensures
            match pick_episode(strict.deep_view(), loose.deep_view()) {
                Some(e) => r matches Ok(s) && s@ == e,
                None => r matches Err(EpisodeDetailBuildError::Plain(m)) && m@
                    == "could not find episode"@,
            },
    {
        let chosen = match strict {
            Some(m) => strip_brackets(m.as_str()),
            None => match loose {
                Some(m) => strip_brackets(m.as_str()),
                None => None,
            },
        };
        match chosen {
            Some(e) => Ok(e),
            None => Err(EpisodeDetailBuildError::Plain(String::from_str("could not find episode"))),
        }
    }

    /// The episode marker of `title`: the first strict match, else the last
    /// bracketed text, without brackets.
    pub fn get_episode(title: &str) -> (r: Result<String, EpisodeDetailBuildError>)
        ensures
            match title_episode(title@) {
                Some(e) => r matches Ok(s) && s@ == e,
                None => r matches Err(EpisodeDetailBuildError::Plain(m)) && m@
                    == "could not find episode"@,
            },
    {
        let strict = find_first(MIN_EPISODE_PATTERN, title);
        let loose = find_last(FULL_EPISODE_PATTERN, title);
        Self::episode_from_matches(strict, loose)
    }

    /// The season marker of `title`, if any.
    pub fn get_season(title: &str) -> (r: Option<String>)
        ensures
            r.deep_view() == title_season(title@),
    {
        find_first(SEASON_FILTER_PATTERN, title)
    }

    /// The extra version of `title`, if any, without brackets.
    pub fn get_extra(title: &str) -> (r: Option<String>)
        ensures
            r.deep_view() == title_extra(title@),
    {
        match find_first(EXTRA_FILTER_PATTERN, title) {
            Some(m) => strip_brackets(m.as_str()),
            None => None,
        }
    }

    /// The season directory name from season and extra version.
    pub fn get_season_with_extra(episode: &str, season: Option<&str>, extra: Option<&str>) -> (r:
        String)
        ensures
            r@ == season_label(episode@, season.deep_view(), extra.deep_view()),
    {
        match (season, extra) {
            (Some(s), Some(e)) => {
                let mut r = String::from_str(s);
                r.append(" ");
                r.append(e);
                r
            },
            (Some(s), None) => String::from_str(s),
            (None, Some(e)) => {
                let mut r = String::from_str("第一季 ");
                r.append(e);
                r
            },
            (None, None) => {
                if str_equal(episode, "電影") {
                    String::from_str("電影")
                } else {
                    String::from_str("第一季")
                }
            },
        }
    }

    /// The anime's name: `title` without its episode, season and extra markers.
    pub fn get_name(title: &str, season: Option<&str>, extra: Option<&str>, episode: &str) -> (r:
        String)
        ensures
            r@ == detail_name(title@, season.deep_view(), extra.deep_view(), episode@),
    {
        proof {
            reveal_strlit("");
            assert(""@ =~= Seq::<char>::empty());
        }
        let marker = bracket(episode);
        let mut plain = replace_str(title, marker.as_str(), "");
        let ghost t1 = replace_all(title@, bracketed(episode@), Seq::empty());
        assert(plain@ == t1);
        let ghost t2 = match season.deep_view() {
            Some(x) => replace_all(t1, x, Seq::empty()),
            None => t1,
        };
        if let Some(s) = season {
            plain = replace_str(plain.as_str(), s, "");
        }
        assert(plain@ == t2);
        let ghost t3 = match extra.deep_view() {
            Some(x) => replace_all(t2, bracketed(x), Seq::empty()),
            None => t2,
        };
        if let Some(e) = extra {
            let marker = bracket(e);
            plain = replace_str(plain.as_str(), marker.as_str(), "");
        }
        assert(plain@ == t3);
        let trimmed = trim_str(plain.as_str());
        replace_matches(WHITESPACES_PATTERN, trimmed.as_str(), " ")
    }
}

/// The episode marker of a title: the inside of the first match of the
/// strict episode pattern when there is one; otherwise the inside of the
/// last bracketed text.
pub proof fn lemma_title_episode_marker(title: Seq<char>)
    ensures
        ({
            let strict = regex_match_texts(MIN_EPISODE_PATTERN@, title);
            strict is Some && strict.unwrap().len() > 0 ==> title_episode(title) == bracket_inner(
                strict.unwrap()[0],
            )
        }),
        ({
            let strict = regex_match_texts(MIN_EPISODE_PATTERN@, title);
            let loose = regex_match_texts(FULL_EPISODE_PATTERN@, title);
            (strict is None || strict.unwrap().len() == 0) && loose is Some && loose.unwrap().len() > 0
                ==> title_episode(title) == bracket_inner(loose.unwrap()[loose.unwrap().len() - 1])
        }),
        ({
            let strict = regex_match_texts(MIN_EPISODE_PATTERN@, title);
            let loose = regex_match_texts(FULL_EPISODE_PATTERN@, title);
            (strict is None || strict.unwrap().len() == 0) && (loose is None || loose.unwrap().len() == 0)
                ==> title_episode(title) is None
        }),
{
}

/// The season marker of a title is the first match of the season pattern,
/// and its extra version the inside of the first match of the extra pattern.
pub proof fn lemma_title_season_and_extra(title: Seq<char>)
    ensures
        ({
            let ms = regex_match_texts(SEASON_FILTER_PATTERN@, title);
            &&& ms is Some && ms.unwrap().len() > 0 ==> title_season(title) == Some(ms.unwrap()[0])
            &&& (ms is None || ms.unwrap().len() == 0) ==> title_season(title) is None
        }),
        ({
            let ms = regex_match_texts(EXTRA_FILTER_PATTERN@, title);
            &&& ms is Some && ms.unwrap().len() > 0 ==> title_extra(title) == bracket_inner(ms.unwrap()[0])
            &&& (ms is None || ms.unwrap().len() == 0) ==> title_extra(title) is None
        }),
{
}

/// `[x]` is left alone when an episode marker `[ep]` other than it is
/// taken out.
proof fn lemma_other_marker_kept(x: Seq<char>, ep: Seq<char>)
    requires
        x != ep,
        !x.contains('['),
        !x.contains(']'),
    ensures
        replace_all(bracketed(x), bracketed(ep), Seq::empty()) == bracketed(x),
{
    let bx = bracketed(x);
    let be = bracketed(ep);
    if bx.len() >= be.len() {
        if bx.take(be.len() as int) == be {
            if bx.len() == be.len() {
                assert(bx.take(be.len() as int) =~= bx);
                assert(x =~= bx.subrange(1, bx.len() - 1));
                assert(ep =~= be.subrange(1, be.len() - 1));
            } else {
                let k = ep.len() as int;
                assert(bx.take(be.len() as int)[k + 1] == be[k + 1]);
                assert(bx[k + 1] == x[k]);
            }
        }
        let rest = x + seq![']'];
        assert(bx =~= seq!['['] + rest);
        assert(!rest.contains(be[0]));
        lemma_replace_all_none(rest, be, Seq::empty());
        assert(bx.skip(1) =~= rest);
    }
}

/// The anime's name drops the extra-version marker whether or not a season is
/// given: the name of a title `{n}{s} [{ep}] [{e}]` (name, season marker,
/// episode marker, extra marker) is that of `n` alone: trimmed, each run of
/// white space made one space.
pub proof fn lemma_name_drops_season_and_extra(n: Seq<char>, s: Seq<char>, e: Seq<char>, ep: Seq<char>)
    requires
        s.len() > 0,
        s[0] != ' ',
        !n.contains('['),
        !n.contains(s[0]),
        !s.contains('['),
        !s.contains(']'),
        !e.contains('['),
        !e.contains(']'),
        !e.contains(s[0]),
        e != ep,
    ensures
        detail_name(n + s + seq![' '] + bracketed(ep) + seq![' '] + bracketed(e), Some(s), Some(e), ep)
            == replaced_or_same(WHITESPACES_PATTERN@, trim(n), seq![' ']),
{
    let sp = seq![' '];
    let title = n + s + sp + bracketed(ep) + sp + bracketed(e);
    let be = bracketed(ep);
    let bx = bracketed(e);
    assert(be[0] == '[');
    assert(bx[0] == '[');
    // The episode marker goes.
    let a1 = n + s + sp;
    assert(!a1.contains('[')) by {
        if a1.contains('[') {
            let i = choose|i: int| 0 <= i < a1.len() && a1[i] == '[';
            if i < n.len() {
                assert(n[i] == '[');
            } else if i < n.len() + s.len() {
                assert(s[i - n.len()] == '[');
            }
        }
    }
    assert(title =~= a1 + (be + (sp + bx)));
    lemma_replace_all_skips(a1, be + (sp + bx), be, Seq::empty());
    lemma_replace_all_front(sp + bx, be, Seq::empty());
    lemma_replace_all_skips(sp, bx, be, Seq::empty());
    lemma_other_marker_kept(e, ep);
    let t1 = replace_all(title, be, Seq::empty());
    assert(t1 =~= n + (s + (sp + sp + bx)));
    // The season marker goes.
    let rest2 = sp + sp + bx;
    assert(!rest2.contains(s[0])) by {
        if rest2.contains(s[0]) {
            let i = choose|i: int| 0 <= i < rest2.len() && rest2[i] == s[0];
            if 2 < i < rest2.len() - 1 {
                assert(e[i - 3] == s[0]);
            }
            assert(s.contains(s[0]));
        }
    }
    lemma_replace_all_skips(n, s + rest2, s, Seq::empty());
    lemma_replace_all_front(rest2, s, Seq::empty());
    lemma_replace_all_none(rest2, s, Seq::empty());
    let t2 = replace_all(t1, s, Seq::empty());
    assert(t2 =~= (n + sp + sp) + bx);
    // The extra marker goes.
    let a3 = n + sp + sp;
    assert(!a3.contains('[')) by {
        if a3.contains('[') {
            let i = choose|i: int| 0 <= i < a3.len() && a3[i] == '[';
            if i < n.len() {
                assert(n[i] == '[');
            }
        }
    }
    assert(bx =~= bx + Seq::<char>::empty());
    lemma_replace_all_skips(a3, bx + Seq::<char>::empty(), bx, Seq::empty());
    lemma_replace_all_front(Seq::<char>::empty(), bx, Seq::empty());
    let t3 = replace_all(t2, bx, Seq::empty());
    assert(t3 =~= n + (sp + sp));
    lemma_trim_trailing_space(n, sp + sp);
    assert(trim(t3) == trim(n));
    reveal_strlit(" ");
    assert(" "@ =~= sp);
}

/// Without a season, the anime's name also drops the extra-version marker:
/// the name of a title `{n} [{ep}] [{e}]` is that of `n` alone.
pub proof fn lemma_name_drops_extra(n: Seq<char>, e: Seq<char>, ep: Seq<char>)
    requires
        !n.contains('['),
        !e.contains('['),
        !e.contains(']'),
        e != ep,
    ensures
        detail_name(n + seq![' '] + bracketed(ep) + seq![' '] + bracketed(e), None, Some(e), ep)
            == replaced_or_same(WHITESPACES_PATTERN@, trim(n), seq![' ']),
{
    let sp = seq![' '];
    let title = n + sp + bracketed(ep) + sp + bracketed(e);
    let be = bracketed(ep);
    let bx = bracketed(e);
    assert(be[0] == '[');
    assert(bx[0] == '[');
    let a1 = n + sp;
    assert(!a1.contains('[')) by {
        if a1.contains('[') {
            let i = choose|i: int| 0 <= i < a1.len() && a1[i] == '[';
            if i < n.len() {
                assert(n[i] == '[');
            }
        }
    }
    assert(title =~= a1 + (be + (sp + bx)));
    lemma_replace_all_skips(a1, be + (sp + bx), be, Seq::empty());
    lemma_replace_all_front(sp + bx, be, Seq::empty());
    lemma_replace_all_skips(sp, bx, be, Seq::empty());
    lemma_other_marker_kept(e, ep);
    let t1 = replace_all(title, be, Seq::empty());
    assert(t1 =~= (n + sp + sp) + bx);
    let a3 = n + sp + sp;
    assert(!a3.contains('[')) by {
        if a3.contains('[') {
            let i = choose|i: int| 0 <= i < a3.len() && a3[i] == '[';
            if i < n.len() {
                assert(n[i] == '[');
            }
        }
    }
    assert(bx =~= bx + Seq::<char>::empty());
    lemma_replace_all_skips(a3, bx + Seq::<char>::empty(), bx, Seq::empty());
    lemma_replace_all_front(Seq::<char>::empty(), bx, Seq::empty());
    let t3 = replace_all(t1, bx, Seq::empty());
    assert(t3 =~= n + (sp + sp));
    lemma_trim_trailing_space(n, sp + sp);
    assert(trim(t3) == trim(n));
    reveal_strlit(" ");
    assert(" "@ =~= sp);
}

} // verus!
