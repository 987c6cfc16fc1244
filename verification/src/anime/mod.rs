//! Anime, their episodes, and what the library reads from episode titles.

pub mod episode;
pub mod episode_detail;
pub mod error;
pub mod playlist;

use vstd::prelude::*;
use indexmap::IndexMap;
use crate::anime::episode::{Episode, EpisodeKey};
use crate::device_id::DeviceId;
use crate::index_map::{entries_from_pairs, entries_insert, keys_distinct, lemma_entries_from_distinct_pairs, lemma_entries_from_pairs};
use crate::request::anime_video::{api_episode_entries, api_episodes_get_index, api_episodes_len, Video, EpisodeInfoView};

verus! {

/// The entries of an anime's episode map: category key and episodes, in order.
pub uninterp spec fn anime_episode_entries(m: IndexMap<String, Vec<Episode>>) -> Seq<(Seq<char>, Seq<Episode>)>;

/// `IndexMap::new`: an empty map.
#[verifier::external_body]
fn anime_episodes_new() -> (m: IndexMap<String, Vec<Episode>>)
    ensures
        anime_episode_entries(m) == Seq::<(Seq<char>, Seq<Episode>)>::empty(),
{
    IndexMap::new()
}

/// `IndexMap::insert`: an existing key keeps its place and takes the new
/// value, a new key goes last (stated for maps with distinct keys, which every
/// `IndexMap` has).
#[verifier::external_body]
fn anime_episodes_insert(m: &mut IndexMap<String, Vec<Episode>>, key: String, value: Vec<Episode>)
    ensures
        keys_distinct(anime_episode_entries(*old(m))) ==> anime_episode_entries(*final(m))
            == entries_insert(anime_episode_entries(*old(m)), key@, value@),
{
    m.insert(key, value);
}

/// The abstract values of a list of episodes.
pub open spec fn episode_keys(v: Seq<Episode>) -> Seq<EpisodeKey> {
    v.map_values(|e: Episode| e@)
}

/// The categories with each episode given by its abstract value.
pub open spec fn entry_keys(entries: Seq<(Seq<char>, Seq<Episode>)>) -> Seq<(Seq<char>, Seq<EpisodeKey>)> {
    entries.map_values(|p: (Seq<char>, Seq<Episode>)| (p.0, episode_keys(p.1)))
}

/// What an episode keeps of the API's entry: cover, number, serial number.
pub open spec fn info_key(e: EpisodeInfoView) -> EpisodeKey {
    (e.0, e.1, e.2)
}

/// The API's categories with each entry turned into an episode.
pub open spec fn converted_entries(api: Seq<(Seq<char>, Seq<EpisodeInfoView>)>) -> Seq<(Seq<char>, Seq<EpisodeKey>)> {
    api.map_values(|p: (Seq<char>, Seq<EpisodeInfoView>)| (p.0, p.1.map_values(|e: EpisodeInfoView| info_key(e))))
}

/// An anime, resolved from one of its episodes.
#[derive(Debug, PartialEq, Eq)]
pub struct Anime {
    /// The anime's serial number.
    sn: u32,
    /// Episodes by category key, in the API's order.
    episodes: IndexMap<String, Vec<Episode>>,
    /// Cover picture of the anime.
    cover: String,
    /// Title of the episode the anime was resolved from.
    title: String,
}

impl Anime {
    pub closed spec fn sn_view(&self) -> u32 {
        self.sn
    }

    pub closed spec fn cover_view(&self) -> Seq<char> {
        self.cover@
    }

    pub closed spec fn title_view(&self) -> Seq<char> {
        self.title@
    }

    /// The categories with their episodes, in order.
    pub closed spec fn episode_entries(&self) -> Seq<(Seq<char>, Seq<Episode>)> {
        anime_episode_entries(self.episodes)
    }

    /// The categories with the abstract value of each episode, in order.
    pub open spec fn episodes_view(&self) -> Seq<(Seq<char>, Seq<EpisodeKey>)> {
        entry_keys(self.episode_entries())
    }

    /// The anime that `video` describes; every episode shares `device_id`.
    pub fn from_video(video: &Video, device_id: &DeviceId) -> (r: Anime)
        ensures
            r.sn_view() == video.anime_view().anime_sn_view(),
            r.cover_view() == video.anime_view().cover_view(),
            r.title_view() == video.anime_view().title_view(),
            r.episodes_view() == converted_entries(video.anime_view().episodes_view()),
            forall|i: int, j: int|
                0 <= i < r.episode_entries().len() && 0 <= j < r.episode_entries()[i].1.len()
                    ==> (#[trigger] r.episode_entries()[i].1[j]).device_id_view() == *device_id,
    {
        let anime = video.anime();
        let api = anime.episodes();
        let ghost entries = api_episode_entries(*api);
        let ghost conv = converted_entries(entries);
        let n = api_episodes_len(api);
        let mut map = anime_episodes_new();
        let ghost mut built: Seq<(Seq<char>, Seq<Episode>)> = Seq::empty();
        let mut i: usize = 0;
        assert(conv.take(0) =~= Seq::<(Seq<char>, Seq<EpisodeKey>)>::empty());
        assert(entry_keys(built) =~= Seq::<(Seq<char>, Seq<EpisodeKey>)>::empty());
        while i < n
            invariant
                n == entries.len(),
                entries == api_episode_entries(*api),
                conv == converted_entries(entries),
                i <= n,
                built.len() == i,
                entry_keys(built) == conv.take(i as int),
                forall|k: int, j: int|
                    0 <= k < built.len() && 0 <= j < built[k].1.len() ==> (#[trigger] built[k].1[j]).device_id_view()
                        == *device_id,
                anime_episode_entries(map) == entries_from_pairs(built),
                forall|a: int, b: int| 0 <= a < i && 0 <= b < n && a != b ==> entries[a].0 != entries[b].0,
            decreases n - i,
        {
            match api_episodes_get_index(api, i) {
                Some((key, list)) => {
                    let mut episodes: Vec<Episode> = Vec::new();
                    let mut j: usize = 0;
                    while j < list.len()
                        invariant
                            j <= list@.len(),
                            episode_keys(episodes@) == list@.map_values(|e: crate::request::anime_video::Episode| info_key(e@)).take(j as int),
                            forall|q: int| 0 <= q < episodes@.len() ==> (#[trigger] episodes@[q]).device_id_view() == *device_id,
                        decreases list@.len() - j,
                    {
                        let e = &list[j];
                        let ghost before = episode_keys(episodes@);
                        let made = Episode::new(e.cover().as_str(), e.episode(), e.video_sn(), device_id.clone());
                        episodes.push(made);
                        assert(episode_keys(episodes@) =~= before.push(info_key(e@)));
                        j = j + 1;
                        assert(list@.map_values(|e: crate::request::anime_video::Episode| info_key(e@)).take(j as int)
                            =~= before.push(info_key(e@)));
                    }
                    let ghost value = episodes@;
                    assert(episode_keys(value) =~= conv[i as int].1);
                    let ghost key_view = key@;
                    let ghost old_built = built;
                    proof {
                        lemma_entries_from_pairs(built);
                    }
                    anime_episodes_insert(&mut map, key.clone(), episodes);
                    proof {
                        built = built.push((key_view, value));
                        assert(built.drop_last() =~= old_built);
                        assert(entry_keys(built) =~= conv.take(i + 1));
                    }
                },
                None => {},
            }
            i = i + 1;
        }
        proof {
            assert(conv.take(n as int) =~= conv);
            assert forall|a: int, b: int| 0 <= a < built.len() && 0 <= b < built.len() && a != b implies built[a].0
                != built[b].0 by {
                assert(entry_keys(built)[a].0 == built[a].0);
                assert(entry_keys(built)[b].0 == built[b].0);
                assert(entries[a].0 != entries[b].0);
            }
            assert(keys_distinct(built));
            lemma_entries_from_distinct_pairs(built);
        }
        Anime { sn: anime.anime_sn(), episodes: map, cover: anime.cover().clone(), title: anime.title().clone() }
    }
}

} // verus!
pub mod download;
