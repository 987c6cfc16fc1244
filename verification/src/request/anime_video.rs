//! The API's description of a video: the anime it belongs to and its episodes.

use vstd::prelude::*;
use indexmap::IndexMap;

verus! {

/// The abstract value of an API episode: cover, episode number, serial
/// number and state.
pub type EpisodeInfoView = (Seq<char>, u32, u32, u32);

/// One episode as the API lists it.
#[derive(Debug, Clone, PartialEq, Eq)]
pub struct Episode {
    /// Picture of the episode.
    cover: String,
    /// Number of the episode: 1, 2, 3, ...
    episode: u32,
    /// Serial number of the episode.
    video_sn: u32,
    /// 1 for the episode that was asked for, else 0.
    state: u32,
}

impl View for Episode {
    type V = EpisodeInfoView;

    closed spec fn view(&self) -> EpisodeInfoView {
        (self.cover@, self.episode, self.video_sn, self.state)
    }
}

impl Episode {
    /// An episode entry with the given fields.
    pub fn new(cover: String, episode: u32, video_sn: u32, state: u32) -> (r: Episode)
        ensures
            r@ == (cover@, episode, video_sn, state),
    {
        Episode { cover, episode, video_sn, state }
    }

    /// Picture of the episode.
    pub fn cover(&self) -> (r: &String)
        ensures
            r@ == self@.0,
    {
        &self.cover
    }

    /// Number of the episode.
    pub fn episode(&self) -> (r: u32)
        ensures
            r == self@.1,
    {
        self.episode
    }

    /// Serial number of the episode.
    pub fn video_sn(&self) -> (r: u32)
        ensures
            r == self@.2,
    {
        self.video_sn
    }
}

/// The abstract values of a list of API episodes.
pub open spec fn episode_infos(v: Seq<Episode>) -> Seq<EpisodeInfoView> {
    v.map_values(|e: Episode| e@)
}

/// The entries of the API's episode map: category key and episodes, in order.
pub uninterp spec fn api_episode_entries(m: IndexMap<String, Vec<Episode>>) -> Seq<(Seq<char>, Seq<EpisodeInfoView>)>;

/// `IndexMap::len`: the number of entries.
#[verifier::external_body]
pub(crate) fn api_episodes_len(m: &IndexMap<String, Vec<Episode>>) -> (r: usize)
    ensures
        r == api_episode_entries(*m).len(),
{
    m.len()
}

/// `IndexMap::get_index`: the entry at position `index`, if any; no other
/// entry of an `IndexMap` has the same key.
#[verifier::external_body]
pub(crate) fn api_episodes_get_index(m: &IndexMap<String, Vec<Episode>>, index: usize) -> (r: Option<(&String, &Vec<Episode>)>)
    ensures
        match r {
            Some((k, v)) => index < api_episode_entries(*m).len() && api_episode_entries(*m)[index as int]
                == (k@, episode_infos(v@)) && forall|j: int|
                0 <= j < api_episode_entries(*m).len() && j != index ==> (
                #[trigger] api_episode_entries(*m)[j]).0 != k@,
            None => index >= api_episode_entries(*m).len(),
        },
{
    m.get_index(index)
}

/// The anime that a video belongs to.
#[derive(Debug, PartialEq, Eq)]
pub struct Anime {
    /// A serial number used by some API calls.
    acg_sn: u32,
    /// Serial number of the anime.
    anime_sn: u32,
    /// Cover picture of the anime.
    cover: String,
    director: String,
    /// Episodes by category key; the main series is usually `0`.
    episodes: IndexMap<String, Vec<Episode>>,
    /// Title of the episode that was asked for.
    title: String,
}

impl Anime {
    /// An anime with the given fields.
    pub fn new(
        acg_sn: u32,
        anime_sn: u32,
        cover: String,
        director: String,
        episodes: IndexMap<String, Vec<Episode>>,
        title: String,
    ) -> (r: Anime)
        ensures
            r.anime_sn_view() == anime_sn,
            r.cover_view() == cover@,
            r.title_view() == title@,
            r.episodes_view() == api_episode_entries(episodes),
    {
        Anime { acg_sn, anime_sn, cover, director, episodes, title }
    }

    pub closed spec fn anime_sn_view(&self) -> u32 {
        self.anime_sn
    }

    pub closed spec fn cover_view(&self) -> Seq<char> {
        self.cover@
    }

    pub closed spec fn title_view(&self) -> Seq<char> {
        self.title@
    }

    pub closed spec fn episodes_view(&self) -> Seq<(Seq<char>, Seq<EpisodeInfoView>)> {
        api_episode_entries(self.episodes)
    }

    /// Serial number of the anime.
    pub fn anime_sn(&self) -> (r: u32)
        ensures
            r == self.anime_sn_view(),
    {
        self.anime_sn
    }

    /// Cover picture of the anime.
    pub fn cover(&self) -> (r: &String)
        ensures
            r@ == self.cover_view(),
    {
        &self.cover
    }

    /// Episodes by category key.
    pub fn episodes(&self) -> (r: &IndexMap<String, Vec<Episode>>)
        ensures
            api_episode_entries(*r) == self.episodes_view(),
    {
        &self.episodes
    }

    /// Title of the episode that was asked for.
    pub fn title(&self) -> (r: &String)
        ensures
            r@ == self.title_view(),
    {
        &self.title
    }
}

/// The API's answer about a video.
#[derive(Debug, PartialEq, Eq)]
pub struct Video {
    anime: Anime,
}

impl Video {
    /// A video of `anime`.
    pub fn new(anime: Anime) -> (r: Video)
        ensures
            r.anime_view() == anime,
    {
        Video { anime }
    }

    pub closed spec fn anime_view(&self) -> Anime {
        self.anime
    }

    /// The anime the video belongs to.
    pub fn anime(&self) -> (r: &Anime)
        ensures
            *r == self.anime_view(),
    {
        &self.anime
    }
}

} // verus!
