//! One downloadable episode, and the decisions that drive its download.

use vstd::prelude::*;
use crate::anime::error::AnimeDownloadError;
use crate::device_id::DeviceId;
use crate::text::{decimal, push_decimal};
use crate::util::{build_url, get_referer, random_alphabet, random_string, referer_spec, url_built};

verus! {

/// The abstract value of an episode: cover, episode number, serial number.
pub type EpisodeKey = (Seq<char>, u32, u32);

/// One episode of an anime.
#[derive(Debug, Clone)]
pub struct Episode {
    /// Picture of the episode.
    cover: String,
    /// Number of the episode: 1, 2, 3, ...
    episode: u32,
    /// Serial number of the episode.
    sn: u32,
    /// The device id the site identifies this client by, shared by all episodes.
    device_id: DeviceId,
}

impl View for Episode {
    type V = EpisodeKey;

    closed spec fn view(&self) -> EpisodeKey {
        (self.cover@, self.episode, self.sn)
    }
}

impl Episode {
    /// Episode `episode` with serial number `sn`.
    pub fn new(cover: &str, episode: u32, sn: u32, device_id: DeviceId) -> (r: Episode)
        ensures
            r@ == (cover@, episode, sn),
            r.device_id_view() == device_id,
    {
        Episode { cover: String::from_str(cover), episode, sn, device_id }
    }

    /// The serial number.
    pub fn sn(&self) -> (r: u32)
        ensures
            r == self@.2,
    {
        self.sn
    }

    /// The episode number.
    pub fn episode(&self) -> (r: u32)
        ensures
            r == self@.1,
    {
        self.episode
    }

    /// The picture of the episode.
    pub fn cover(&self) -> (r: &String)
        ensures
            r@ == self@.0,
    {
        &self.cover
    }

    /// The device id slot this episode shares.
    pub closed spec fn device_id_view(&self) -> DeviceId {
        self.device_id
    }

    /// The shared device id.
    pub fn device_id(&self) -> (r: &DeviceId)
        ensures
            *r == self.device_id_view(),
    {
        &self.device_id
    }
}

/// The query pairs of a token request with hash `h`: `adId=0` first when
/// asked for, then the serial number, the device id and the hash.
pub open spec fn token_pairs(add_ad_id: bool, sn: u32, device: Seq<char>, h: Seq<char>) -> Seq<(Seq<char>, Seq<char>)> {
    (if add_ad_id {
        seq![("adId"@, "0"@)]
    } else {
        Seq::empty()
    }) + seq![("sn"@, decimal(sn as nat)), ("device"@, device), ("hash"@, h)]
}

/// A hash the site accepts in a token request: twelve characters from the
/// random alphabet.
pub open spec fn is_request_hash(h: Seq<char>) -> bool {
    h.len() == 12 && forall|i: int| 0 <= i < 12 ==> random_alphabet().contains(#[trigger] h[i])
}

/// `{ORIGIN}{path}{sn}`.
pub open spec fn site_url(path: Seq<char>, sn: u32) -> Seq<char> {
    "https://ani.gamer.com.tw"@ + path + decimal(sn as nat)
}

/// The URL of the API's description of video `sn`.
pub open spec fn video_info_url_spec(sn: u32) -> Seq<char> {
    "https://api.gamer.com.tw/anime/v1/video.php?videoSn="@ + decimal(sn as nat)
}

/// The URL of the API's description of video `sn`.
pub fn video_info_url(sn: u32) -> (r: String)
    ensures
        r@ == video_info_url_spec(sn),
{
    let mut s = String::from_str("https://api.gamer.com.tw/anime/v1/video.php?videoSn=");
    push_decimal(&mut s, sn as u64);
    s
}

fn site_url_exec(path: &str, sn: u32) -> (r: String)
    ensures
        r@ == site_url(path@, sn),
{
    let mut s = String::from_str("https://ani.gamer.com.tw");
    s.append(path);
    push_decimal(&mut s, sn as u64);
    s
}

impl Episode {
    /// The referer to send with this episode's requests.
    pub fn referer(&self) -> (r: String)
        ensures
            r@ == referer_spec(self@.2 as nat),
    {
        get_referer(self.sn)
    }

    /// The query of the device id request: `id={id}` when an id is known.
    pub fn device_id_query(current: Option<String>) -> (r: Option<String>)
        ensures
            match current {
                Some(id) => r matches Some(q) && q@ == "id="@ + id@,
                None => r is None,
            },
    {
        match current {
            Some(id) => {
                let mut q = String::from_str("id=");
                q.append(id.as_str());
                Some(q)
            },
            None => None,
        }
    }

    /// The query pairs of the token request: `adId=0` first when asked for,
    /// then the serial number, the device id and a random 12-character hash.
    /// Without a device id there is no request.
    pub fn token_query(&self, add_ad_id: bool, device: Option<String>) -> (r: Result<
        Vec<(String, String)>,
        AnimeDownloadError,
    >)
        ensures
            device is None ==> r == Err::<Vec<(String, String)>, AnimeDownloadError>(
                AnimeDownloadError::DeviceIdDidNotExist,
            ),
            device matches Some(d) ==> (r matches Ok(pairs) && exists|h: Seq<char>|
                #![trigger token_pairs(add_ad_id, self@.2, d@, h)]
                is_request_hash(h) && pairs.deep_view() == token_pairs(add_ad_id, self@.2, d@, h)),
    {
        let d = match device {
            Some(d) => d,
            None => return Err(AnimeDownloadError::DeviceIdDidNotExist),
        };
        let ghost dv = d@;
        let mut pairs: Vec<(String, String)> = Vec::new();
        if add_ad_id {
            pairs.push((String::from_str("adId"), String::from_str("0")));
        }
        let mut sn = String::new();
        push_decimal(&mut sn, self.sn as u64);
        pairs.push((String::from_str("sn"), sn));
        pairs.push((String::from_str("device"), d));
        let hash = random_string(12);
        let ghost h = hash@;
        pairs.push((String::from_str("hash"), hash));
        proof {
            assert(pairs.deep_view() =~= token_pairs(add_ad_id, self@.2, dv, h));
        }
        Ok(pairs)
    }

    /// The URL of the device id request: `{ORIGIN}/ajax/getdeviceid.php`,
    /// with the query `id={id}` when an id is known.
    pub fn device_id_url(current: Option<String>) -> (r: Result<String, AnimeDownloadError>)
        ensures
            match url_built(
                "https://ani.gamer.com.tw"@,
                "ajax/getdeviceid.php"@,
                match current {
                    Some(id) => Some("id="@ + id@),
                    None => None,
                },
                Seq::empty(),
            ) {
                Ok(u) => r matches Ok(x) && x@ == u,
                Err(m) => r matches Err(AnimeDownloadError::UrlParseError(x)) && x@ == m,
            },
    {
        let query = Self::device_id_query(current);
        let q: Option<&str> = match &query {
            Some(q) => Some(q.as_str()),
            None => None,
        };
        let no_pairs: Vec<(String, String)> = Vec::new();
        assert(no_pairs.deep_view() =~= Seq::<(Seq<char>, Seq<char>)>::empty());
        match build_url("https://ani.gamer.com.tw", "ajax/getdeviceid.php", q, &no_pairs) {
            Ok(u) => Ok(u),
            Err(m) => Err(AnimeDownloadError::UrlParseError(m)),
        }
    }

    /// The URL of the token request: `{ORIGIN}/ajax/token.php` with the pairs
    /// of [`Self::token_query`] as its query, under a fresh random hash.
    /// Without a device id there is no request.
    pub fn token_url(&self, add_ad_id: bool, device: Option<String>) -> (r: Result<String, AnimeDownloadError>)
        ensures
            device is None ==> r == Err::<String, AnimeDownloadError>(AnimeDownloadError::DeviceIdDidNotExist),
            device matches Some(d) ==> exists|h: Seq<char>|
                #![trigger token_pairs(add_ad_id, self@.2, d@, h)]
                is_request_hash(h) && match url_built(
                    "https://ani.gamer.com.tw"@,
                    "ajax/token.php"@,
                    None,
                    token_pairs(add_ad_id, self@.2, d@, h),
                ) {
                    Ok(u) => r matches Ok(x) && x@ == u,
                    Err(m) => r matches Err(AnimeDownloadError::UrlParseError(x)) && x@ == m,
                },
    {
        let d = match device {
            Some(d) => d,
            None => return Err(AnimeDownloadError::DeviceIdDidNotExist),
        };
        let ghost dv = d@;
        let pairs = match self.token_query(add_ad_id, Some(d)) {
            Ok(p) => p,
            Err(e) => return Err(e),
        };
        match build_url("https://ani.gamer.com.tw", "ajax/token.php", None, &pairs) {
            Ok(u) => Ok(u),
            Err(m) => Err(AnimeDownloadError::UrlParseError(m)),
        }
    }

    /// `{ORIGIN}/ajax/unlock.php?sn={sn}&ttl={ttl}`, with `ttl` 0 when not given.
    pub fn unlock_url(&self, ttl: Option<u32>) -> (r: String)
        ensures
            r@ == site_url("/ajax/unlock.php?sn="@, self@.2) + "&ttl="@ + decimal(
                match ttl {
                    Some(t) => t as nat,
                    None => 0,
                },
            ),
    {
        let ttl = match ttl {
            Some(t) => t,
            None => 0,
        };
        let mut s = site_url_exec("/ajax/unlock.php?sn=", self.sn);
        s.append("&ttl=");
        push_decimal(&mut s, ttl as u64);
        s
    }

    /// `{ORIGIN}/ajax/checklock.php?device={device}&sn={sn}`; there is no
    /// request without a device id.
    pub fn check_lock_url(&self, device: Option<String>) -> (r: Result<String, AnimeDownloadError>)
        ensures
            match device {
                Some(d) => r matches Ok(u) && u@ == "https://ani.gamer.com.tw/ajax/checklock.php?device="@
                    + d@ + "&sn="@ + decimal(self@.2 as nat),
                None => r == Err::<String, AnimeDownloadError>(AnimeDownloadError::DeviceIdDidNotExist),
            },
    {
        match device {
            Some(d) => {
                let mut s = String::from_str("https://ani.gamer.com.tw/ajax/checklock.php?device=");
                s.append(d.as_str());
                s.append("&sn=");
                push_decimal(&mut s, self.sn as u64);
                Ok(s)
            },
            None => Err(AnimeDownloadError::DeviceIdDidNotExist),
        }
    }

    /// `{ORIGIN}/ajax/videoCastcishu.php?sn={sn}&s=194699`: the advertisement starts.
    pub fn start_ad_url(&self) -> (r: String)
        ensures
            r@ == site_url("/ajax/videoCastcishu.php?sn="@, self@.2) + "&s=194699"@,
    {
        let mut s = site_url_exec("/ajax/videoCastcishu.php?sn=", self.sn);
        s.append("&s=194699");
        s
    }

    /// `{ORIGIN}/ajax/videoCastcishu.php?sn={sn}&s=194699&ad=end`: the
    /// advertisement ends.
    pub fn skip_ad_url(&self) -> (r: String)
        ensures
            r@ == site_url("/ajax/videoCastcishu.php?sn="@, self@.2) + "&s=194699&ad=end"@,
    {
        let mut s = site_url_exec("/ajax/videoCastcishu.php?sn=", self.sn);
        s.append("&s=194699&ad=end");
        s
    }

    /// `{ORIGIN}/ajax/videoStart.php?sn={sn}`: the video starts.
    pub fn video_start_url(&self) -> (r: String)
        ensures
            r@ == site_url("/ajax/videoStart.php?sn="@, self@.2),
    {
        site_url_exec("/ajax/videoStart.php?sn=", self.sn)
    }

    /// `{ORIGIN}/ajax/m3u8.php?sn={sn}&device={device}`: where the master
    /// playlist is; there is no request without a device id.
    pub fn playlist_url(&self, device: Option<String>) -> (r: Result<String, AnimeDownloadError>)
        ensures
            match device {
                Some(d) => r matches Ok(u) && u@ == site_url("/ajax/m3u8.php?sn="@, self@.2) + "&device="@
                    + d@,
                None => r == Err::<String, AnimeDownloadError>(AnimeDownloadError::DeviceIdDidNotExist),
            },
    {
        match device {
            Some(d) => {
                let mut s = site_url_exec("/ajax/m3u8.php?sn=", self.sn);
                s.append("&device=");
                s.append(d.as_str());
                Ok(s)
            },
            None => Err(AnimeDownloadError::DeviceIdDidNotExist),
        }
    }
}

impl PartialEq for Episode {
    /// Episodes are equal when cover, number and serial number are.
    fn eq(&self, other: &Self) -> (r: bool) {
        self.cover == other.cover && self.episode == other.episode && self.sn == other.sn
    }
}

impl vstd::std_specs::cmp::PartialEqSpecImpl for Episode {
    open spec fn obeys_eq_spec() -> bool {
        true
    }

    open spec fn eq_spec(&self, other: &Episode) -> bool {
        self@ == other@
    }
}

impl Eq for Episode {}

} // verus!
