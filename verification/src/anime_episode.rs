//! One episode page of the site: its title, episode marker, anime name and
//! the list of episodes it links to.

use vstd::prelude::*;
use indexmap::IndexMap;
use std::rc::Rc;
use crate::config::{Config, DownloadMode};
use crate::dom::{
    dom_all_anchors, dom_all_texts, dom_nested_anchors, first_text, select_all_anchors,
    select_all_texts, select_nested_anchors, select_text,
};
use crate::index_map::{entries_from_pairs, entries_insert, keys_distinct, lemma_entries_from_pairs};
use crate::anime::episode_detail::{detail_name, EpisodeDetail};
use crate::pattern::{
    bracket_inner, find_first, find_last, first_match, last_match, regex_match_texts,
    strip_brackets, FULL_EPISODE_PATTERN, MIN_EPISODE_PATTERN,
};
use crate::sn_list::SnDetail;
use crate::text::{decimal, parse_u32, parsed_u32, push_decimal};
use crate::util::{get_referer, referer_spec};

verus! {

/// What can go wrong reading an episode page.
#[derive(Debug, PartialEq, Eq)]
pub enum AnimeEpisodeError {
    /// The page lacks something the library reads; the message says what.
    ParseHtmlError(String),
    /// The page could not be fetched; the message says why.
    Request(String),
}

/// One entry of an episode list: the episode marker and its serial number.
#[derive(Debug, Clone, PartialEq, Eq)]
pub struct EpisodeSn {
    episode: String,
    sn_code: String,
}

impl View for EpisodeSn {
    type V = (Seq<char>, Seq<char>);

    closed spec fn view(&self) -> (Seq<char>, Seq<char>) {
        (self.episode@, self.sn_code@)
    }
}

impl EpisodeSn {
    /// The entry of episode `episode` with serial number `sn_code`.
    pub fn new(episode: &str, sn_code: &str) -> (r: EpisodeSn)
        ensures
            r@ == (episode@, sn_code@),
    {
        EpisodeSn { episode: String::from_str(episode), sn_code: String::from_str(sn_code) }
    }
}

/// The abstract values of a list of entries.
pub open spec fn sns_view(v: Seq<EpisodeSn>) -> Seq<(Seq<char>, Seq<char>)> {
    v.map_values(|e: EpisodeSn| e@)
}

/// The entries of an episode list map, in order: category name and episodes.
pub uninterp spec fn episode_list_entries(m: IndexMap<String, Vec<EpisodeSn>>) -> Seq<(Seq<char>, Seq<(Seq<char>, Seq<char>)>)>;

/// `IndexMap::new`: an empty map.
#[verifier::external_body]
fn episode_list_new() -> (m: IndexMap<String, Vec<EpisodeSn>>)
    ensures
        episode_list_entries(m) == Seq::<(Seq<char>, Seq<(Seq<char>, Seq<char>)>)>::empty(),
{
    IndexMap::new()
}

/// `IndexMap::insert`: an existing key keeps its place and takes the new
/// value, a new key goes last. Stated for maps whose keys are distinct, which
/// every `IndexMap` has.
#[verifier::external_body]
fn episode_list_insert(m: &mut IndexMap<String, Vec<EpisodeSn>>, key: String, value: Vec<EpisodeSn>)
    ensures
        keys_distinct(episode_list_entries(*old(m))) ==> episode_list_entries(*final(m))
            == entries_insert(episode_list_entries(*old(m)), key@, sns_view(value@)),
{
    m.insert(key, value);
}

/// Attribute of an episode link that holds its serial number.
pub const SN_ATTRIBUTE: &'static str = "data-ani-video-sn";

/// The message for a page whose category and list counts differ.
pub open spec fn mismatch_message(categories: nat, lists: nat) -> Seq<char> {
    "episode category count does not match episode list count: "@ + decimal(categories)
        + " != "@ + decimal(lists)
}

/// The message for an episode link without serial number.
pub open spec fn missing_sn_message(episode: Seq<char>) -> Seq<char> {
    "could not find sn for episode "@ + episode
}

/// The episode categories of a page with their links (text and serial
/// number): each `.season p` paired with the `.season ul` at the same place,
/// or, without categories, every `.season a` under `本篇`.
pub open spec fn raw_groups(page: Seq<char>) -> Result<Seq<(Seq<char>, Seq<(Seq<char>, Option<Seq<char>>)>)>, Seq<char>> {
    let ps = dom_all_texts(page, ".season p"@);
    if ps.len() > 0 {
        let uls = dom_nested_anchors(page, ".season ul"@, "a"@, SN_ATTRIBUTE@);
        if ps.len() != uls.len() {
            Err(mismatch_message(ps.len(), uls.len()))
        } else {
            Ok(Seq::new(ps.len(), |i: int| (ps[i], uls[i])))
        }
    } else {
        Ok(seq![("本篇"@, dom_all_anchors(page, ".season a"@, SN_ATTRIBUTE@))])
    }
}

/// The entries of one category's links; the first link without serial number
/// is an error.
pub open spec fn anchor_sns(anchors: Seq<(Seq<char>, Option<Seq<char>>)>) -> Result<Seq<(Seq<char>, Seq<char>)>, Seq<char>>
    decreases anchors.len(),
{
    if anchors.len() == 0 {
        Ok(Seq::empty())
    } else {
        match anchor_sns(anchors.drop_last()) {
            Err(m) => Err(m),
            Ok(prev) => match anchors.last().1 {
                None => Err(missing_sn_message(anchors.last().0)),
                Some(sn) => Ok(prev.push((anchors.last().0, sn))),
            },
        }
    }
}

/// The entries of one category: a category without links holds the current
/// episode alone.
pub open spec fn group_sns(anchors: Seq<(Seq<char>, Option<Seq<char>>)>, episode: Seq<char>, sn_code: Seq<char>) -> Result<Seq<(Seq<char>, Seq<char>)>, Seq<char>> {
    if anchors.len() == 0 {
        Ok(seq![(episode, sn_code)])
    } else {
        anchor_sns(anchors)
    }
}

/// The categories with their entries, in page order; the first error wins.
pub open spec fn build_groups(
    raw: Seq<(Seq<char>, Seq<(Seq<char>, Option<Seq<char>>)>)>,
    episode: Seq<char>,
    sn_code: Seq<char>,
) -> Result<Seq<(Seq<char>, Seq<(Seq<char>, Seq<char>)>)>, Seq<char>>
    decreases raw.len(),
{
    if raw.len() == 0 {
        Ok(Seq::empty())
    } else {
        match build_groups(raw.drop_last(), episode, sn_code) {
            Err(m) => Err(m),
            Ok(prev) => match group_sns(raw.last().1, episode, sn_code) {
                Err(m) => Err(m),
                Ok(g) => Ok(prev.push((raw.last().0, g))),
            },
        }
    }
}

/// The categories of a page with their entries.
pub open spec fn episode_groups(page: Seq<char>, episode: Seq<char>, sn_code: Seq<char>) -> Result<Seq<(Seq<char>, Seq<(Seq<char>, Seq<char>)>)>, Seq<char>> {
    match raw_groups(page) {
        Err(m) => Err(m),
        Ok(raw) => build_groups(raw, episode, sn_code),
    }
}

/// One episode of an anime, by serial number, with its download mode.
pub struct AnimeEpisode {
    sn_code: String,
    download_mode: DownloadMode,
    config: Rc<Config>,
}

impl AnimeEpisode {
    /// The episode of `sn`; without a mode of its own it takes the
    /// configured default.
    pub fn new(sn: SnDetail, config: Rc<Config>) -> (r: AnimeEpisode)
        ensures
            r.sn_code_view() == sn.code@,
            r.download_mode_view() == match sn.mode {
                Some(m) => m,
                None => config.default_download_mode,
            },
            r.config_view() == *config,
    {
        let download_mode = match sn.mode {
            Some(m) => m,
            None => config.default_download_mode,
        };
        AnimeEpisode { sn_code: sn.code, download_mode, config }
    }

    /// The serial number.
    pub closed spec fn sn_code_view(&self) -> Seq<char> {
        self.sn_code@
    }

    /// The download mode.
    pub closed spec fn download_mode_view(&self) -> DownloadMode {
        self.download_mode
    }

    /// The configuration the episode was made under.
    pub closed spec fn config_view(&self) -> Config {
        *self.config
    }

    /// The configuration the episode was made under.
    pub fn config(&self) -> (r: &Config)
        ensures
            *r == self.config_view(),
    {
        &*self.config
    }

    fn anchor_entries(anchors: &Vec<(String, Option<String>)>) -> (r: Result<Vec<EpisodeSn>, String>)
        ensures
            match anchor_sns(anchors.deep_view()) {
                Ok(g) => r matches Ok(v) && sns_view(v@) == g,
                Err(m) => r matches Err(e) && e@ == m,
            },
    {
        let mut v: Vec<EpisodeSn> = Vec::new();
        let mut i: usize = 0;
        assert(anchors.deep_view().take(0) =~= Seq::<(Seq<char>, Option<Seq<char>>)>::empty());
        assert(sns_view(v@) =~= Seq::<(Seq<char>, Seq<char>)>::empty());
        while i < anchors.len()
            invariant
                i <= anchors@.len(),
                anchor_sns(anchors.deep_view().take(i as int)) == Ok::<Seq<(Seq<char>, Seq<char>)>, Seq<char>>(sns_view(v@)),
            decreases anchors@.len() - i,
        {
            let ghost prefix = anchors.deep_view().take(i + 1);
            assert(prefix.drop_last() =~= anchors.deep_view().take(i as int));
            let (text, sn) = (&anchors[i].0, &anchors[i].1);
            assert(prefix.last() == (text@, sn.deep_view()));
            match sn {
                None => {
                    let mut e = String::from_str("could not find sn for episode ");
                    e.append(text.as_str());
                    proof {
                        assert(anchor_sns(prefix) == Err::<Seq<(Seq<char>, Seq<char>)>, Seq<char>>(missing_sn_message(text@)));
                        lemma_anchor_sns_error_persists(anchors.deep_view(), i as int + 1);
                        assert(anchors.deep_view().take(anchors@.len() as int) =~= anchors.deep_view());
                    }
                    return Err(e);
                },
                Some(s) => {
                    let ghost old_v = v@;
                    let entry = EpisodeSn::new(text.as_str(), s.as_str());
                    v.push(entry);
                    assert(sns_view(v@) =~= sns_view(old_v).push((text@, s@)));
                    assert(anchor_sns(prefix) == Ok::<Seq<(Seq<char>, Seq<char>)>, Seq<char>>(sns_view(old_v).push((text@, s@))));
                },
            }
            i = i + 1;
        }
        assert(anchors.deep_view().take(anchors@.len() as int) =~= anchors.deep_view());
        Ok(v)
    }

    fn group_entries(anchors: &Vec<(String, Option<String>)>, episode: &str, sn_code: &str) -> (r: Result<Vec<EpisodeSn>, String>)
        ensures
            match group_sns(anchors.deep_view(), episode@, sn_code@) {
                Ok(g) => r matches Ok(v) && sns_view(v@) == g,
                Err(m) => r matches Err(e) && e@ == m,
            },
    {
        if anchors.len() == 0 {
            let mut v: Vec<EpisodeSn> = Vec::new();
            v.push(EpisodeSn::new(episode, sn_code));
            assert(sns_view(v@) =~= seq![(episode@, sn_code@)]);
            Ok(v)
        } else {
            Self::anchor_entries(anchors)
        }
    }

    /// The episode list of `page`: each category with its episodes, in page
    /// order. A category without links holds the current `episode` alone.
    pub fn get_episode_list(&self, page: &str, episode: &str) -> (r: Result<
        IndexMap<String, Vec<EpisodeSn>>,
        AnimeEpisodeError,
    >)
        ensures
            match episode_groups(page@, episode@, self.sn_code_view()) {
                Ok(groups) => r matches Ok(m) && episode_list_entries(m) == entries_from_pairs(groups),
                Err(msg) => r matches Err(AnimeEpisodeError::ParseHtmlError(e)) && e@ == msg,
            },
    {
        let p_texts = select_all_texts(page, ".season p");
        let has_categories = p_texts.len() > 0;
        let uls = if has_categories {
            select_nested_anchors(page, ".season ul", "a", SN_ATTRIBUTE)
        } else {
            Vec::new()
        };
        if has_categories && p_texts.len() != uls.len() {
            let mut e = String::from_str("episode category count does not match episode list count: ");
            push_decimal(&mut e, p_texts.len() as u64);
            e.append(" != ");
            push_decimal(&mut e, uls.len() as u64);
            return Err(AnimeEpisodeError::ParseHtmlError(e));
        }
        let plain = if has_categories {
            Vec::new()
        } else {
            select_all_anchors(page, ".season a", SN_ATTRIBUTE)
        };
        let ghost raw = raw_groups(page@)->Ok_0;
        let count: usize = if has_categories { p_texts.len() } else { 1 };
        assert(raw.len() == count);
        let mut map = episode_list_new();
        let ghost mut groups: Seq<(Seq<char>, Seq<(Seq<char>, Seq<char>)>)> = Seq::empty();
        let mut g: usize = 0;
        while g < count
            invariant
                g <= count,
                raw == raw_groups(page@)->Ok_0,
                raw_groups(page@) is Ok,
                raw.len() == count,
                has_categories ==> count == p_texts@.len() && count == uls@.len(),
                has_categories ==> forall|k: int| 0 <= k < count ==> raw[k] == (#[trigger] p_texts.deep_view()[k], uls.deep_view()[k]),
                !has_categories ==> count == 1 && raw[0] == ("本篇"@, plain.deep_view()),
                build_groups(raw.take(g as int), episode@, self.sn_code@) == Ok::<Seq<(Seq<char>, Seq<(Seq<char>, Seq<char>)>)>, Seq<char>>(groups),
                episode_list_entries(map) == entries_from_pairs(groups),
            decreases count - g,
        {
            let ghost prefix = raw.take(g + 1);
            assert(prefix.drop_last() =~= raw.take(g as int));
            let name = if has_categories { p_texts[g].clone() } else { String::from_str("本篇") };
            let anchors = if has_categories { &uls[g] } else { &plain };
            proof {
                if has_categories {
                    assert(p_texts.deep_view()[g as int] == p_texts@[g as int]@);
                    assert(uls.deep_view()[g as int] == uls@[g as int].deep_view());
                }
            }
            assert(raw[g as int] == (name@, anchors.deep_view()));
            assert(prefix.last() == (name@, anchors.deep_view()));
            match Self::group_entries(anchors, episode, self.sn_code.as_str()) {
                Err(e) => {
                    proof {
                        lemma_build_groups_error_persists(raw, episode@, self.sn_code@, g as int + 1);
                        assert(raw.take(raw.len() as int) =~= raw);
                    }
                    return Err(AnimeEpisodeError::ParseHtmlError(e));
                },
                Ok(entries) => {
                    let ghost value = sns_view(entries@);
                    let ghost key = name@;
                    let ghost old_groups = groups;
                    proof {
                        lemma_entries_from_pairs(groups);
                    }
                    episode_list_insert(&mut map, name, entries);
                    proof {
                        groups = groups.push((key, value));
                        assert(groups.drop_last() =~= old_groups);
                        assert(groups.last() == (key, value));
                    }
                },
            }
            g = g + 1;
        }
        assert(raw.take(count as int) =~= raw);
        Ok(map)
    }
}

/// The text between the brackets of a match, when there is a bracketed match.
pub open spec fn opt_inner(m: Option<Seq<char>>) -> Option<Seq<char>> {
    match m {
        Some(x) => bracket_inner(x),
        None => None,
    }
}

/// The episode marker of a page: the link of the playing episode, else the
/// first strict title match, else the last bracketed text of the title, else `1`.
pub open spec fn choose_episode(playing: Option<Seq<char>>, strict: Option<Seq<char>>, loose: Option<Seq<char>>) -> Seq<char> {
    match playing {
        Some(p) => p,
        None => match opt_inner(strict) {
            Some(e) => e,
            None => match opt_inner(loose) {
                Some(e) => e,
                None => "1"@,
            },
        },
    }
}

/// The episode marker of `page`, whose title is `title`.
pub open spec fn page_episode(page: Seq<char>, title: Seq<char>) -> Seq<char> {
    choose_episode(
        first_text(dom_all_texts(page, ".playing a"@)),
        first_match(regex_match_texts(MIN_EPISODE_PATTERN@, title)),
        last_match(regex_match_texts(FULL_EPISODE_PATTERN@, title)),
    )
}

/// The episode title shown on `page`.
pub open spec fn page_title(page: Seq<char>) -> Option<Seq<char>> {
    first_text(dom_all_texts(page, ".anime_name  h1"@))
}

/// The anime's name: `title` without its `[episode]` marker, trimmed, each
/// run of white space made one space.
pub open spec fn anime_name(title: Seq<char>, episode: Seq<char>) -> Seq<char> {
    detail_name(title, None, None, episode)
}

/// What a page says of its episode.
pub struct ResolvedAnimeEpisode {
    /// The page's HTML.
    page: String,
    /// The episode title, such as `無職轉生～到了異世界就拿出真本事～第三季 [2]`.
    title: String,
    /// The anime's name, such as `無職轉生～到了異世界就拿出真本事～第三季`.
    name: String,
    /// The episode marker, such as `2`.
    episode: String,
    /// The episode list by category (`本篇`, `特別篇`, `中文配音`, ...).
    episode_list: IndexMap<String, Vec<EpisodeSn>>,
}

impl ResolvedAnimeEpisode {
    pub closed spec fn page_view(&self) -> Seq<char> {
        self.page@
    }

    pub closed spec fn title_view(&self) -> Seq<char> {
        self.title@
    }

    pub closed spec fn name_view(&self) -> Seq<char> {
        self.name@
    }

    pub closed spec fn episode_view(&self) -> Seq<char> {
        self.episode@
    }

    pub closed spec fn list_view(&self) -> Seq<(Seq<char>, Seq<(Seq<char>, Seq<char>)>)> {
        episode_list_entries(self.episode_list)
    }

    /// The episode title.
    pub fn title(&self) -> (r: &String)
        ensures
            r@ == self.title_view(),
    {
        &self.title
    }

    /// The anime's name.
    pub fn name(&self) -> (r: &String)
        ensures
            r@ == self.name_view(),
    {
        &self.name
    }

    /// The episode marker.
    pub fn episode(&self) -> (r: &String)
        ensures
            r@ == self.episode_view(),
    {
        &self.episode
    }

    /// The episode list.
    pub fn episode_list(&self) -> (r: &IndexMap<String, Vec<EpisodeSn>>)
        ensures
            episode_list_entries(*r) == self.list_view(),
    {
        &self.episode_list
    }
}

impl AnimeEpisode {
    /// The URL of the episode's page and the referer to send with it; `None`
    /// when the serial number is not a decimal `u32`.
    pub fn page_request(&self) -> (r: Option<(String, String)>)
        ensures
            match parsed_u32(self.sn_code_view()) {
                Some(sn) => r matches Some(p) && p.0@ == "https://ani.gamer.com.tw/animeVideo.php?sn="@
                    + self.sn_code_view() && p.1@ == referer_spec(sn as nat),
                None => r is None,
            },
    {
        match parse_u32(self.sn_code.as_str()) {
            Some(sn) => {
                let mut url = String::from_str("https://ani.gamer.com.tw/animeVideo.php?sn=");
                url.append(self.sn_code.as_str());
                Some((url, get_referer(sn)))
            },
            None => None,
        }
    }

    /// Reads the title, episode marker, name and episode list of `content`,
    /// the HTML of this episode's page.
    pub fn parse_content(&self, content: String) -> (r: Result<ResolvedAnimeEpisode, AnimeEpisodeError>)
        ensures
            match page_title(content@) {
                None => r matches Err(AnimeEpisodeError::ParseHtmlError(m)) && m@
                    == "could not find anime's title"@,
                Some(t) => match episode_groups(
                    content@,
                    page_episode(content@, t),
                    self.sn_code_view(),
                ) {
                    Err(msg) => r matches Err(AnimeEpisodeError::ParseHtmlError(m)) && m@ == msg,
                    Ok(groups) => r matches Ok(res) && res.page_view() == content@ && res.title_view()
                        == t && res.episode_view() == page_episode(content@, t) && res.name_view()
                        == anime_name(t, page_episode(content@, t)) && res.list_view()
                        == entries_from_pairs(groups),
                },
            },
    {
        let title = match Self::get_title(content.as_str()) {
            Ok(t) => t,
            Err(e) => return Err(e),
        };
        let episode = Self::get_episode(content.as_str(), title.as_str());
        let name = Self::get_name(title.as_str(), episode.as_str());
        let episode_list = match self.get_episode_list(content.as_str(), episode.as_str()) {
            Ok(l) => l,
            Err(e) => return Err(e),
        };
        Ok(ResolvedAnimeEpisode { page: content, title, name, episode, episode_list })
    }

    /// The episode title of `page`.
    pub fn get_title(page: &str) -> (r: Result<String, AnimeEpisodeError>)
        ensures
            match page_title(page@) {
                Some(t) => r matches Ok(s) && s@ == t,
                None => r matches Err(AnimeEpisodeError::ParseHtmlError(m)) && m@
                    == "could not find anime's title"@,
            },
    {
        match select_text(page, ".anime_name  h1") {
            Some(t) => Ok(t),
            None => Err(
                AnimeEpisodeError::ParseHtmlError(String::from_str("could not find anime's title")),
            ),
        }
    }

    /// Picks the episode marker from the playing link, the strict title
    /// match and the last bracketed title text, in that order, else `1`.
    pub fn episode_from_candidates(playing: Option<String>, strict: Option<String>, loose: Option<String>) -> (r: String)
        ensures
            r@ == choose_episode(playing.deep_view(), strict.deep_view(), loose.deep_view()),
    {
        if let Some(p) = playing {
            return p;
        }
        let from_strict = match strict {
            Some(m) => strip_brackets(m.as_str()),
            None => None,
        };
        if let Some(e) = from_strict {
            return e;
        }
        let from_loose = match loose {
            Some(m) => strip_brackets(m.as_str()),
            None => None,
        };
        match from_loose {
            Some(e) => e,
            None => String::from_str("1"),
        }
    }

    /// The episode marker of `page`, whose title is `title`.
    pub fn get_episode(page: &str, title: &str) -> (r: String)
        ensures
            r@ == page_episode(page@, title@),
    {
        let playing = select_text(page, ".playing a");
        let strict = find_first(MIN_EPISODE_PATTERN, title);
        let loose = find_last(FULL_EPISODE_PATTERN, title);
        Self::episode_from_candidates(playing, strict, loose)
    }

    /// The anime's name: `title` without its `[episode]` marker.
    pub fn get_name(title: &str, episode: &str) -> (r: String)
        ensures
            r@ == anime_name(title@, episode@),
    {
        EpisodeDetail::get_name(title, None, None, episode)
    }
}

proof fn lemma_anchor_sns_error_persists(anchors: Seq<(Seq<char>, Option<Seq<char>>)>, n: int)
    requires
        0 <= n <= anchors.len(),
        anchor_sns(anchors.take(n)) is Err,
    ensures
        anchor_sns(anchors) == anchor_sns(anchors.take(n)),
    decreases anchors.len() - n,
{
    if n < anchors.len() {
        assert(anchors.take(n + 1).drop_last() =~= anchors.take(n));
        lemma_anchor_sns_error_persists(anchors, n + 1);
    } else {
        assert(anchors.take(n) =~= anchors);
    }
}

proof fn lemma_build_groups_error_persists(
    raw: Seq<(Seq<char>, Seq<(Seq<char>, Option<Seq<char>>)>)>,
    episode: Seq<char>,
    sn_code: Seq<char>,
    n: int,
)
    requires
        0 <= n <= raw.len(),
        build_groups(raw.take(n), episode, sn_code) is Err,
    ensures
        build_groups(raw, episode, sn_code) == build_groups(raw.take(n), episode, sn_code),
    decreases raw.len() - n,
{
    if n < raw.len() {
        assert(raw.take(n + 1).drop_last() =~= raw.take(n));
        lemma_build_groups_error_persists(raw, episode, sn_code, n + 1);
    } else {
        assert(raw.take(n) =~= raw);
    }
}

/// The entries of a category whose links all carry a serial number are
/// exactly its links, in order: one entry per link, its text and its serial
/// number.
pub proof fn lemma_anchor_sns_all_links(anchors: Seq<(Seq<char>, Option<Seq<char>>)>)
    requires
        forall|i: int| 0 <= i < anchors.len() ==> (#[trigger] anchors[i]).1 is Some,
    ensures
        anchor_sns(anchors) == Ok::<Seq<(Seq<char>, Seq<char>)>, Seq<char>>(
            anchors.map_values(|a: (Seq<char>, Option<Seq<char>>)| (a.0, a.1.unwrap())),
        ),
        anchor_sns(anchors)->Ok_0.len() == anchors.len(),
    decreases anchors.len(),
{
    if anchors.len() > 0 {
        let prev = anchors.drop_last();
        assert forall|i: int| 0 <= i < prev.len() implies (#[trigger] prev[i]).1 is Some by {
            assert(prev[i] == anchors[i]);
        }
        lemma_anchor_sns_all_links(prev);
        assert(anchors[anchors.len() - 1].1 is Some);
        assert(prev.map_values(|a: (Seq<char>, Option<Seq<char>>)| (a.0, a.1.unwrap())).push(
            (anchors.last().0, anchors.last().1.unwrap()),
        ) =~= anchors.map_values(|a: (Seq<char>, Option<Seq<char>>)| (a.0, a.1.unwrap())));
    } else {
        assert(anchors.map_values(|a: (Seq<char>, Option<Seq<char>>)| (a.0, a.1.unwrap())) =~= Seq::<
            (Seq<char>, Seq<char>),
        >::empty());
    }
}

/// A link without serial number fails its category with the message for the
/// first such link.
pub proof fn lemma_anchor_sns_missing_link(anchors: Seq<(Seq<char>, Option<Seq<char>>)>, k: int)
    requires
        0 <= k < anchors.len(),
        anchors[k].1 is None,
        forall|i: int| 0 <= i < k ==> (#[trigger] anchors[i]).1 is Some,
    ensures
        anchor_sns(anchors) == Err::<Seq<(Seq<char>, Seq<char>)>, Seq<char>>(missing_sn_message(anchors[k].0)),
{
    let front = anchors.take(k);
    assert forall|i: int| 0 <= i < front.len() implies (#[trigger] front[i]).1 is Some by {
        assert(front[i] == anchors[i]);
    }
    lemma_anchor_sns_all_links(front);
    assert(anchors.take(k + 1).drop_last() =~= front);
    lemma_anchor_sns_error_persists(anchors, k + 1);
}

/// The entries of a category given as links: each link's text and serial
/// number, or the current episode alone when there is no link.
pub open spec fn link_entries(
    links: Seq<(Seq<char>, Option<Seq<char>>)>,
    episode: Seq<char>,
    sn_code: Seq<char>,
) -> Seq<(Seq<char>, Seq<char>)> {
    if links.len() == 0 {
        seq![(episode, sn_code)]
    } else {
        links.map_values(|a: (Seq<char>, Option<Seq<char>>)| (a.0, a.1.unwrap()))
    }
}

/// When every link carries a serial number, each category keeps its name and
/// place, and its entries are its links in order (the current episode alone
/// when it has none).
pub proof fn lemma_build_groups_all_links(
    raw: Seq<(Seq<char>, Seq<(Seq<char>, Option<Seq<char>>)>)>,
    episode: Seq<char>,
    sn_code: Seq<char>,
)
    requires
        forall|i: int, k: int| 0 <= i < raw.len() && 0 <= k < raw[i].1.len() ==> (#[trigger] raw[i].1[k]).1 is Some,
    ensures
        build_groups(raw, episode, sn_code) == Ok::<Seq<(Seq<char>, Seq<(Seq<char>, Seq<char>)>)>, Seq<char>>(
            raw.map_values(
                |g: (Seq<char>, Seq<(Seq<char>, Option<Seq<char>>)>)| (g.0, link_entries(g.1, episode, sn_code)),
            ),
        ),
    decreases raw.len(),
{
    let f = |g: (Seq<char>, Seq<(Seq<char>, Option<Seq<char>>)>)| (g.0, link_entries(g.1, episode, sn_code));
    if raw.len() > 0 {
        let prev = raw.drop_last();
        assert forall|i: int, k: int| 0 <= i < prev.len() && 0 <= k < prev[i].1.len() implies (#[trigger] prev[i].1[k]).1 is Some by {
            assert(prev[i] == raw[i]);
        }
        lemma_build_groups_all_links(prev, episode, sn_code);
        let last = raw.last();
        assert forall|k: int| 0 <= k < last.1.len() implies (#[trigger] last.1[k]).1 is Some by {
            assert(raw[raw.len() - 1].1[k] == last.1[k]);
        }
        if last.1.len() > 0 {
            lemma_anchor_sns_all_links(last.1);
        }
        assert(prev.map_values(f).push(f(last)) =~= raw.map_values(f));
    } else {
        assert(raw.map_values(f) =~= Seq::<(Seq<char>, Seq<(Seq<char>, Seq<char>)>)>::empty());
    }
}

/// The episode list of a page. With categories (`.season p`), each one is
/// paired with the `.season ul` at the same place, and the counts must agree;
/// without them every `.season a` falls under `本篇`. When every link carries
/// a serial number, a category's entries are its links in order, or the
/// current episode alone when it has none.
pub proof fn lemma_episode_groups_of_page(page: Seq<char>, episode: Seq<char>, sn_code: Seq<char>)
    ensures
        ({
            let ps = dom_all_texts(page, ".season p"@);
            let uls = dom_nested_anchors(page, ".season ul"@, "a"@, SN_ATTRIBUTE@);
            ps.len() > 0 && ps.len() != uls.len() ==> episode_groups(page, episode, sn_code) == Err::<
                Seq<(Seq<char>, Seq<(Seq<char>, Seq<char>)>)>,
                Seq<char>,
            >(mismatch_message(ps.len(), uls.len()))
        }),
        ({
            let ps = dom_all_texts(page, ".season p"@);
            let uls = dom_nested_anchors(page, ".season ul"@, "a"@, SN_ATTRIBUTE@);
            ps.len() > 0 && ps.len() == uls.len() && (forall|i: int, k: int|
                0 <= i < uls.len() && 0 <= k < uls[i].len() ==> (#[trigger] uls[i][k]).1 is Some)
                ==> episode_groups(page, episode, sn_code) == Ok::<
                Seq<(Seq<char>, Seq<(Seq<char>, Seq<char>)>)>,
                Seq<char>,
            >(Seq::new(ps.len(), |i: int| (ps[i], link_entries(uls[i], episode, sn_code))))
        }),
        ({
            let ps = dom_all_texts(page, ".season p"@);
            let links = dom_all_anchors(page, ".season a"@, SN_ATTRIBUTE@);
            ps.len() == 0 && (forall|k: int| 0 <= k < links.len() ==> (#[trigger] links[k]).1 is Some)
                ==> episode_groups(page, episode, sn_code) == Ok::<
                Seq<(Seq<char>, Seq<(Seq<char>, Seq<char>)>)>,
                Seq<char>,
            >(seq![("本篇"@, link_entries(links, episode, sn_code))])
        }),
{
    let ps = dom_all_texts(page, ".season p"@);
    let uls = dom_nested_anchors(page, ".season ul"@, "a"@, SN_ATTRIBUTE@);
    let links = dom_all_anchors(page, ".season a"@, SN_ATTRIBUTE@);
    let f = |g: (Seq<char>, Seq<(Seq<char>, Option<Seq<char>>)>)| (g.0, link_entries(g.1, episode, sn_code));
    if ps.len() > 0 && ps.len() == uls.len() && (forall|i: int, k: int|
        0 <= i < uls.len() && 0 <= k < uls[i].len() ==> (#[trigger] uls[i][k]).1 is Some) {
        let raw = Seq::new(ps.len(), |i: int| (ps[i], uls[i]));
        assert forall|i: int, k: int| 0 <= i < raw.len() && 0 <= k < raw[i].1.len() implies (#[trigger] raw[i].1[k]).1 is Some by {
            assert(raw[i].1 == uls[i]);
        }
        lemma_build_groups_all_links(raw, episode, sn_code);
        assert(raw.map_values(f) =~= Seq::new(ps.len(), |i: int| (ps[i], link_entries(uls[i], episode, sn_code))));
    }
    if ps.len() == 0 && (forall|k: int| 0 <= k < links.len() ==> (#[trigger] links[k]).1 is Some) {
        let raw = seq![("本篇"@, links)];
        assert forall|i: int, k: int| 0 <= i < raw.len() && 0 <= k < raw[i].1.len() implies (#[trigger] raw[i].1[k]).1 is Some by {
            assert(raw[i].1 == links);
        }
        lemma_build_groups_all_links(raw, episode, sn_code);
        assert(raw.map_values(f) =~= seq![("本篇"@, link_entries(links, episode, sn_code))]);
    }
}

} // verus!
