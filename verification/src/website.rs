//! The platform-specific resolvers and the dispatcher that picks one
//! for an input URL.
use vstd::prelude::*;
use vstd::string::*;
use crate::error::{Error, ErrorV};
use crate::text::{contains_seq, str_contains, str_eq, strip_all_suffix};
use crate::urlinfo::{UrlPartsV, parse_url_parts, url_parts_of};

pub mod bilibili;
pub mod netease_music;
pub mod pixiv;
pub mod weibo;

verus! {

/// The resolvers the dispatcher can select, a closed set.
pub enum Resolver {
    Video(bilibili::Video),
    Bangumi(bilibili::Bangumi),
    BiliLive(bilibili::Live),
    Song(netease_music::Song),
    PlayList(netease_music::PlayList),
    Pixiv(pixiv::Pixiv),
    Collection(pixiv::Collection),
}

/// Marks the types the dispatcher hands out: each resolves one URL by
/// emitting requests and consuming responses, and carries its own
/// client configuration.
pub trait Extractor {
}

impl Extractor for bilibili::Video {
}

impl Extractor for bilibili::Bangumi {
}

impl Extractor for bilibili::Live {
}

impl Extractor for netease_music::Song {
}

impl Extractor for netease_music::PlayList {
}

impl Extractor for pixiv::Pixiv {
}

impl Extractor for pixiv::Collection {
}

pub enum Site {
    BiliVideo,
    BiliBangumi,
    BiliLive,
    NeteaseSong,
    NeteasePlaylist,
    PixivSingle,
    PixivCollection,
}

/// Which resolver a parsed URL selects: by host, then by a substring
/// test telling the single-item and collection flavors apart. An
/// unknown host selects none.
pub open spec fn classify_spec(parts: UrlPartsV) -> Option<Site> {
    if parts.host == "bilibili.com"@ || parts.host == "www.bilibili.com"@ {
        if contains_seq(parts.normalized, "av"@) || contains_seq(parts.normalized, "BV"@) {
            Some(Site::BiliVideo)
        } else {
            Some(Site::BiliBangumi)
        }
    } else if parts.host == "live.bilibili.com"@ {
        Some(Site::BiliLive)
    } else if parts.host == "music.163.com"@ {
        if contains_seq(parts.normalized, "song"@) {
            Some(Site::NeteaseSong)
        } else {
            Some(Site::NeteasePlaylist)
        }
    } else if parts.host == "pixiv.net"@ || parts.host == "www.pixiv.net"@ {
        if contains_seq(parts.normalized, "artworks"@) {
            Some(Site::PixivSingle)
        } else {
            Some(Site::PixivCollection)
        }
    } else {
        None
    }
}

/// What the dispatcher returns for a selected site: the site's resolver,
/// constructed from the normalized URL exactly as that resolver's own
/// constructor describes.
pub open spec fn dispatch_ok(site: Site, n: Seq<char>, r: Result<Resolver, Error>) -> bool {
    match site {
        Site::BiliVideo => match url_parts_of(n) {
            Some(p) => match bilibili::video_new_spec(p) {
                Ok((id, page)) => r matches Ok(Resolver::Video(v)) && v@.id == id && v@.page
                    == page && v@.state is Idle,
                Err(e) => r matches Err(x) && x@ == e,
            },
            None => r matches Err(x) && x@ == (ErrorV::ParseUrl { url: n }),
        },
        Site::BiliBangumi => match url_parts_of(n) {
            Some(p) => match bilibili::bangumi_new_spec(p) {
                Ok(id) => r matches Ok(Resolver::Bangumi(v)) && v@.id == id && v@.state is Idle,
                Err(e) => r matches Err(x) && x@ == e,
            },
            None => r matches Err(x) && x@ == (ErrorV::ParseUrl { url: n }),
        },
        Site::BiliLive => match url_parts_of(n) {
            Some(p) => match bilibili::live_new_spec(p) {
                Ok(id) => r matches Ok(Resolver::BiliLive(v)) && v@.id == id && v@.state is Idle,
                Err(e) => r matches Err(x) && x@ == e,
            },
            None => r matches Err(x) && x@ == (ErrorV::ParseUrl { url: n }),
        },
        Site::NeteaseSong => match url_parts_of(n) {
            Some(p) => match netease_music::song_new_spec(p) {
                Ok(id) => r matches Ok(Resolver::Song(v)) && v@.id == id && v@.state is Idle,
                Err(e) => r matches Err(x) && x@ == e,
            },
            None => r matches Err(x) && x@ == (ErrorV::ParseUrl { url: n }),
        },
        Site::NeteasePlaylist => match url_parts_of(n) {
            Some(p) => match netease_music::playlist_new_spec(p) {
                Ok(id) => r matches Ok(Resolver::PlayList(v)) && v@.id == id && v@.ignore_vip
                    && v@.state is Idle,
                Err(e) => r matches Err(x) && x@ == e,
            },
            None => r matches Err(x) && x@ == (ErrorV::ParseUrl { url: n }),
        },
        Site::PixivSingle => match url_parts_of(strip_all_suffix(n, "/"@)) {
            Some(p) => match pixiv::pixiv_new_spec(p) {
                Ok(pid) => r matches Ok(Resolver::Pixiv(v)) && v@.pid == pid && v@.state is Idle,
                Err(e) => r matches Err(x) && x@ == e,
            },
            None => r matches Err(x) && x@ == (ErrorV::ParseUrl {
                url: strip_all_suffix(n, "/"@),
            }),
        },
        Site::PixivCollection => match url_parts_of(strip_all_suffix(n, "/"@)) {
            Some(p) => match pixiv::collection_new_spec(p) {
                Ok(uid) => r matches Ok(Resolver::Collection(v)) && v@.uid == uid && v@.state
                    is Idle,
                Err(e) => r matches Err(x) && x@ == e,
            },
            None => r matches Err(x) && x@ == (ErrorV::ParseUrl {
                url: strip_all_suffix(n, "/"@),
            }),
        },
    }
}


/// The sole entry point: classify an input URL and hand back the
/// resolver that applies, or reject the input.
pub fn choose_extractor(url: &str) -> (r: Result<Resolver, Error>)
    ensures
        match url_parts_of(url@) {
            Some(parts) => match classify_spec(parts) {
                Some(site) => dispatch_ok(site, parts.normalized, r),
                None => r matches Err(e) && e@ == (ErrorV::InvalidUrl { url: parts.normalized }),
            },
            None => r matches Err(e) && e@ == (ErrorV::ParseUrl { url: url@ }),
        },
{
    let parts = match parse_url_parts(url) {
        Some(p) => p,
        None => {
            return Err(Error::ParseUrlError { url: String::from_str(url) });
        },
    };
    let host = parts.host.as_str();
    let n = parts.normalized.as_str();
    if str_eq(host, "bilibili.com") || str_eq(host, "www.bilibili.com") {
        if str_contains(n, "av") || str_contains(n, "BV") {
            match bilibili::Video::new(n) {
                Ok(v) => Ok(Resolver::Video(v)),
                Err(e) => Err(e),
            }
        } else {
            match bilibili::Bangumi::new(n) {
                Ok(v) => Ok(Resolver::Bangumi(v)),
                Err(e) => Err(e),
            }
        }
    } else if str_eq(host, "live.bilibili.com") {
        match bilibili::Live::new(n) {
            Ok(v) => Ok(Resolver::BiliLive(v)),
            Err(e) => Err(e),
        }
    } else if str_eq(host, "music.163.com") {
        if str_contains(n, "song") {
            match netease_music::Song::new(n) {
                Ok(v) => Ok(Resolver::Song(v)),
                Err(e) => Err(e),
            }
        } else {
            match netease_music::PlayList::new(n) {
                Ok(v) => Ok(Resolver::PlayList(v)),
                Err(e) => Err(e),
            }
        }
    } else if str_eq(host, "pixiv.net") || str_eq(host, "www.pixiv.net") {
        if str_contains(n, "artworks") {
            match pixiv::Pixiv::new(n) {
                Ok(v) => Ok(Resolver::Pixiv(v)),
                Err(e) => Err(e),
            }
        } else {
            match pixiv::Collection::new(n) {
                Ok(v) => Ok(Resolver::Collection(v)),
                Err(e) => Err(e),
            }
        }
    } else {
        Err(Error::InvalidUrl { url: parts.normalized })
    }
}

} // verus!
