//! The video platform's resolvers: ordinary videos, episodic seasons,
//! and live rooms.
use vstd::prelude::*;
use vstd::string::*;
use crate::client::Client;
use crate::error::{Error, ErrorV};
use crate::json::{Json, arr_spec, at_j, get_j, get_spec, str_spec, u64_spec};
use crate::text::{
    all_digits, dec_str, digits_val, has_prefix, parse_u64, parse_u64_spec, str_has_prefix,
    str_strip_all_prefix, strip_all_prefix, u64_to_string,
};
use crate::urlinfo::{UrlParts, last_nonempty_segment};
use crate::{
    Origin, OriginV, Outcome, OutcomeV, Playlist, PlaylistV, Request, RequestV, Response, Track,
    TrackV,
};

verus! {

/// A typed content identifier parsed from the last path segment of an
/// input URL: a numeric id, an opaque code, an episode id, or a season id.
#[derive(Debug, Clone)]
pub enum Id {
    Av(u64),
    Bv(String),
    Ep(u64),
    Ss(u64),
}

pub enum IdV {
    Av(u64),
    Bv(Seq<char>),
    Ep(u64),
    Ss(u64),
}

impl View for Id {
    type V = IdV;

    open spec fn view(&self) -> IdV {
        match self {
            Id::Av(n) => IdV::Av(*n),
            Id::Bv(s) => IdV::Bv(s@),
            Id::Ep(n) => IdV::Ep(*n),
            Id::Ss(n) => IdV::Ss(*n),
        }
    }
}

/// The identifier an identifier string parses to: classified by its
/// literal prefix, with the digits after a numeric prefix read as a
/// decimal number, repeated prefixes stripped as `trim_start_matches`
/// strips them. An unrecognized prefix parses to nothing.
pub open spec fn id_spec(s: Seq<char>) -> Option<IdV> {
    if has_prefix(s, "av"@) {
        match parse_u64_spec(strip_all_prefix(s, "av"@)) {
            Some(n) => Some(IdV::Av(n)),
            None => None,
        }
    } else if has_prefix(s, "BV"@) {
        Some(IdV::Bv(s))
    } else if has_prefix(s, "ep"@) {
        match parse_u64_spec(strip_all_prefix(s, "ep"@)) {
            Some(n) => Some(IdV::Ep(n)),
            None => None,
        }
    } else if has_prefix(s, "ss"@) {
        match parse_u64_spec(strip_all_prefix(s, "ss"@)) {
            Some(n) => Some(IdV::Ss(n)),
            None => None,
        }
    } else {
        None
    }
}

impl Id {
    pub fn new(id: &str) -> (r: Option<Id>)
        ensures
            match id_spec(id@) {
                Some(v) => r matches Some(x) && x@ == v,
                None => r is None,
            },
    {
        proof {
            reveal_strlit("av");
            reveal_strlit("BV");
            reveal_strlit("ep");
            reveal_strlit("ss");
        }
        if str_has_prefix(id, "av") {
            match parse_u64(str_strip_all_prefix(id, "av")) {
                Some(n) => Some(Id::Av(n)),
                None => None,
            }
        } else if str_has_prefix(id, "BV") {
            Some(Id::Bv(String::from_str(id)))
        } else if str_has_prefix(id, "ep") {
            match parse_u64(str_strip_all_prefix(id, "ep")) {
                Some(n) => Some(Id::Ep(n)),
                None => None,
            }
        } else if str_has_prefix(id, "ss") {
            match parse_u64(str_strip_all_prefix(id, "ss")) {
                Some(n) => Some(Id::Ss(n)),
                None => None,
            }
        } else {
            None
        }
    }

    /// The identifier in the last non-empty path segment of a parsed URL.
    pub fn from_url(url: &UrlParts) -> (r: Result<Id, Error>)
        ensures
            match last_nonempty_segment(url@.segments) {
                Some(seg) => match id_spec(seg) {
                    Some(v) => r matches Ok(x) && x@ == v,
                    None => r matches Err(e) && e@ == (ErrorV::InvalidUrl {
                        url: url@.normalized,
                    }),
                },
                None => r matches Err(e) && e@ == (ErrorV::InvalidUrl { url: url@.normalized }),
            },
    {
        let seg = match url.last_nonempty_segment() {
            Some(s) => s,
            None => {
                return Err(Error::InvalidUrl { url: url.normalized.clone() });
            },
        };
        match Id::new(seg.as_str()) {
            Some(id) => Ok(id),
            None => Err(Error::InvalidUrl { url: url.normalized.clone() }),
        }
    }
}

/// For every supported prefix, a prefix-plus-digits identifier string
/// parses to the correspondingly tagged identifier.
pub proof fn lemma_identifier_prefixes(digits: Seq<char>)
    requires
        digits.len() > 0,
        all_digits(digits),
        digits_val(digits) <= u64::MAX,
    ensures
        id_spec("av"@ + digits) == Some(IdV::Av(digits_val(digits) as u64)),
        id_spec("BV"@ + digits) == Some(IdV::Bv("BV"@ + digits)),
        id_spec("ep"@ + digits) == Some(IdV::Ep(digits_val(digits) as u64)),
        id_spec("ss"@ + digits) == Some(IdV::Ss(digits_val(digits) as u64)),
{
    reveal_strlit("av");
    reveal_strlit("BV");
    reveal_strlit("ep");
    reveal_strlit("ss");
    lemma_prefix_digits(digits, "av"@);
    lemma_prefix_digits(digits, "ep"@);
    lemma_prefix_digits(digits, "ss"@);
    lemma_not_prefix_first_char("BV"@ + digits, "av"@);
    assert(("BV"@ + digits).take(2) =~= "BV"@);
    lemma_not_prefix_first_char("ep"@ + digits, "av"@);
    lemma_not_prefix_first_char("ep"@ + digits, "BV"@);
    lemma_not_prefix_first_char("ss"@ + digits, "av"@);
    lemma_not_prefix_first_char("ss"@ + digits, "BV"@);
    lemma_not_prefix_first_char("ss"@ + digits, "ep"@);
}

proof fn lemma_not_prefix_first_char(s: Seq<char>, p: Seq<char>)
    requires
        p.len() >= 1,
        s.len() >= 1,
        s[0] != p[0],
    ensures
        !has_prefix(s, p),
{
    if has_prefix(s, p) {
        assert(s.take(p.len() as int)[0] == s[0]);
    }
}

proof fn lemma_prefix_digits(digits: Seq<char>, p: Seq<char>)
    requires
        digits.len() > 0,
        all_digits(digits),
        p.len() == 2,
        !crate::text::is_digit_char(p[0]),
    ensures
        has_prefix(p + digits, p),
        strip_all_prefix(p + digits, p) == digits,
        !has_prefix(digits, p),
{
    let s = p + digits;
    assert(s.take(2) =~= p);
    assert(has_prefix(s, p));
    if has_prefix(digits, p) {
        assert(digits.take(2)[0] == digits[0]);
        assert(crate::text::is_digit_char(digits[0]));
    }
    assert(s.skip(2) =~= digits);
    assert(strip_all_prefix(s, p) == strip_all_prefix(digits, p));
}

/// An identifier string with an unrecognized prefix never parses.
pub proof fn lemma_identifier_unrecognized(s: Seq<char>)
    requires
        !has_prefix(s, "av"@),
        !has_prefix(s, "BV"@),
        !has_prefix(s, "ep"@),
        !has_prefix(s, "ss"@),
    ensures
        id_spec(s) is None,
{
}

// ---------------------------------------------------------------------
// API URL templates
// ---------------------------------------------------------------------

pub open spec fn cid_api_url_spec(id: IdV) -> Seq<char> {
    match id {
        IdV::Av(av) => "https://api.bilibili.com/x/player/pagelist"@ + "?aid="@ + dec_str(
            av as nat,
        ),
        IdV::Bv(bv) => "https://api.bilibili.com/x/player/pagelist"@ + "?bvid="@ + bv,
        IdV::Ep(ep) => "https://api.bilibili.com/pgc/view/web/season"@ + "?ep_id="@ + dec_str(
            ep as nat,
        ),
        IdV::Ss(ss) => "https://api.bilibili.com/pgc/view/web/season"@ + "?season_id="@ + dec_str(
            ss as nat,
        ),
    }
}

pub open spec fn video_api_url_spec(id: IdV, cid: u64) -> Seq<char> {
    match id {
        IdV::Av(av) => "https://api.bilibili.com/x/player/playurl"@ + "?cid="@ + dec_str(
            cid as nat,
        ) + "&fnval=16&fourk=1&avid="@ + dec_str(av as nat),
        IdV::Bv(bv) => "https://api.bilibili.com/x/player/playurl"@ + "?cid="@ + dec_str(
            cid as nat,
        ) + "&fnval=16&fourk=1&bvid="@ + bv,
        _ => Seq::empty(),
    }
}

pub open spec fn base_video_api_url_spec(aid: u64, cid: u64) -> Seq<char> {
    "https://api.bilibili.com/x/player/playurl"@ + "?cid="@ + dec_str(cid as nat)
        + "&qn=127&fnval=2000&fourk=1&avid="@ + dec_str(aid as nat)
}

pub open spec fn info_api_url_aid_spec(aid: u64) -> Seq<char> {
    "https://api.bilibili.com/x/web-interface/view"@ + "?aid="@ + dec_str(aid as nat)
}

pub open spec fn info_api_url_spec(id: IdV) -> Seq<char> {
    match id {
        IdV::Av(av) => info_api_url_aid_spec(av),
        IdV::Bv(bv) => "https://api.bilibili.com/x/web-interface/view"@ + "?bvid="@ + bv,
        _ => Seq::empty(),
    }
}

impl Id {
    /// The page-list (or season) lookup URL for this identifier.
    pub fn as_cid_api(&self) -> (r: String)
        ensures
            r@ == cid_api_url_spec(self@),
    {
        match self {
            Id::Av(av) => {
                let mut s = String::from_str("https://api.bilibili.com/x/player/pagelist");
                s.append("?aid=");
                s.append(u64_to_string(*av).as_str());
                s
            },
            Id::Bv(bv) => {
                let mut s = String::from_str("https://api.bilibili.com/x/player/pagelist");
                s.append("?bvid=");
                s.append(bv.as_str());
                s
            },
            Id::Ep(ep) => {
                let mut s = String::from_str("https://api.bilibili.com/pgc/view/web/season");
                s.append("?ep_id=");
                s.append(u64_to_string(*ep).as_str());
                s
            },
            Id::Ss(ss) => {
                let mut s = String::from_str("https://api.bilibili.com/pgc/view/web/season");
                s.append("?season_id=");
                s.append(u64_to_string(*ss).as_str());
                s
            },
        }
    }

    /// The stream-manifest lookup URL for this identifier and a page's
    /// numeric handle. Only plain video identifiers reach this call.
    pub fn as_video_api(&self, cid: u64) -> (r: String)
        requires
            self@ matches IdV::Av(_) || self@ matches IdV::Bv(_),
        ensures
            r@ == video_api_url_spec(self@, cid),
    {
        match self {
            Id::Av(av) => {
                let mut s = String::from_str("https://api.bilibili.com/x/player/playurl");
                s.append("?cid=");
                s.append(u64_to_string(cid).as_str());
                s.append("&fnval=16&fourk=1&avid=");
                s.append(u64_to_string(*av).as_str());
                s
            },
            Id::Bv(bv) => {
                let mut s = String::from_str("https://api.bilibili.com/x/player/playurl");
                s.append("?cid=");
                s.append(u64_to_string(cid).as_str());
                s.append("&fnval=16&fourk=1&bvid=");
                s.append(bv.as_str());
                s
            },
            _ => {
                String::new()
            },
        }
    }
}

fn base_video_api_url(aid: u64, cid: u64) -> (r: String)
    ensures
        r@ == base_video_api_url_spec(aid, cid),
{
    let mut s = String::from_str("https://api.bilibili.com/x/player/playurl");
    s.append("?cid=");
    s.append(u64_to_string(cid).as_str());
    s.append("&qn=127&fnval=2000&fourk=1&avid=");
    s.append(u64_to_string(aid).as_str());
    s
}

fn info_api_url_aid(aid: u64) -> (r: String)
    ensures
        r@ == info_api_url_aid_spec(aid),
{
    let mut s = String::from_str("https://api.bilibili.com/x/web-interface/view");
    s.append("?aid=");
    s.append(u64_to_string(aid).as_str());
    s
}

fn info_api_url(id: &Id) -> (r: String)
    requires
        id@ matches IdV::Av(_) || id@ matches IdV::Bv(_),
    ensures
        r@ == info_api_url_spec(id@),
{
    match id {
        Id::Av(av) => info_api_url_aid(*av),
        Id::Bv(bv) => {
            let mut s = String::from_str("https://api.bilibili.com/x/web-interface/view");
            s.append("?bvid=");
            s.append(bv.as_str());
            s
        },
        _ => String::new(),
    }
}

// ---------------------------------------------------------------------
// Manifest normalization
// ---------------------------------------------------------------------

/// The base URL of the first entry of a stream array that exposes one.
pub open spec fn first_base_url(items: Seq<Json>) -> Option<Seq<char>>
    decreases items.len(),
{
    if items.len() == 0 {
        None
    } else {
        match str_spec(get_j(items[0], "baseUrl"@)) {
            Some(u) => Some(u),
            None => first_base_url(items.drop_first()),
        }
    }
}

pub open spec fn video_url_spec(dash: Json) -> Option<Seq<char>> {
    match arr_spec(get_j(dash, "video"@)) {
        Some(items) => first_base_url(items),
        None => None,
    }
}

pub open spec fn audio_url_spec(dash: Json) -> Option<Seq<char>> {
    match arr_spec(get_j(dash, "audio"@)) {
        Some(items) => first_base_url(items),
        None => None,
    }
}

/// Split-stream normalization: the first usable video URL and the first
/// usable audio URL, in that fixed order; nothing when neither is found.
pub open spec fn dash_tracks_spec(dash: Json) -> Option<Seq<TrackV>> {
    match (video_url_spec(dash), audio_url_spec(dash)) {
        (Some(v), Some(a)) => Some(seq![TrackV::Video(v), TrackV::Audio(a)]),
        (Some(v), None) => Some(seq![TrackV::Video(v)]),
        (None, Some(a)) => Some(seq![TrackV::Audio(a)]),
        (None, None) => None,
    }
}

pub open spec fn entry_url_of(j: Json) -> Seq<char> {
    match str_spec(get_j(j, "url"@)) {
        Some(u) => u,
        None => Seq::empty(),
    }
}

pub open spec fn durl_all_ok(items: Seq<Json>) -> bool {
    forall|i: int| 0 <= i < items.len() ==> str_spec(get_j(#[trigger] items[i], "url"@)) is Some
}

/// Combined-stream normalization keeps the source array's order. An
/// empty array matches nothing: an origin always holds a track.
pub open spec fn durl_tracks_of(items: Seq<Json>) -> Seq<TrackV> {
    Seq::new(items.len(), |i: int| TrackV::Video(entry_url_of(items[i])))
}

pub open spec fn durl_tracks_spec(durl: Json) -> Option<Seq<TrackV>> {
    match arr_spec(durl) {
        Some(items) => if items.len() > 0 && durl_all_ok(items) {
            Some(durl_tracks_of(items))
        } else {
            None
        },
        None => None,
    }
}

/// Manifest normalization: the split-stream shape is tried first, the
/// combined-stream shape is its fallback; nothing matches otherwise.
pub open spec fn normalize_spec(data: Json) -> Option<Seq<TrackV>> {
    match dash_tracks_spec(get_j(get_j(data, "data"@), "dash"@)) {
        Some(t) => Some(t),
        None => durl_tracks_spec(get_j(get_j(data, "data"@), "durl"@)),
    }
}

/// Split-shape determinism: whenever both a video and an audio URL are
/// found, the result is exactly one video track then one audio track.
pub proof fn lemma_split_shape_both(data: Json, u1: Seq<char>, u2: Seq<char>)
    requires
        video_url_spec(get_j(get_j(data, "data"@), "dash"@)) == Some(u1),
        audio_url_spec(get_j(get_j(data, "data"@), "dash"@)) == Some(u2),
    ensures
        normalize_spec(data) == Some(seq![TrackV::Video(u1), TrackV::Audio(u2)]),
{
}

/// Combined-shape determinism: the normalized tracks mirror the source
/// array, one video track per entry, in source order.
pub proof fn lemma_combined_shape_order(data: Json, items: Seq<Json>)
    requires
        dash_tracks_spec(get_j(get_j(data, "data"@), "dash"@)) is None,
        arr_spec(get_j(get_j(data, "data"@), "durl"@)) == Some(items),
        items.len() > 0,
        durl_all_ok(items),
    ensures
        normalize_spec(data) matches Some(ts) && ts.len() == items.len() && forall|i: int|
            0 <= i < items.len() ==> ts[i] == TrackV::Video(entry_url_of(#[trigger] items[i])),
{
}

fn first_base_url_in(items: &Vec<Json>) -> (r: Option<&String>)
    ensures
        match first_base_url(items@) {
            Some(u) => r matches Some(s) && s@ == u,
            None => r is None,
        },
{
    let n = items.len();
    let mut i: usize = 0;
    proof {
        assert(items@.skip(0) =~= items@);
    }
    while i < n
        invariant
            n == items@.len(),
            0 <= i <= n,
            first_base_url(items@) == first_base_url(items@.skip(i as int)),
        decreases n - i,
    {
        proof {
            assert(items@.skip(i as int)[0] == items@[i as int]);
        }
        let entry = &items[i];
        match entry.get("baseUrl") {
            Some(v) => match v.str_of() {
                Some(s) => {
                    return Some(s);
                },
                None => {},
            },
            None => {},
        }
        proof {
            assert(items@.skip(i as int).drop_first() =~= items@.skip(i as int + 1));
        }
        i = i + 1;
    }
    None
}

fn parse_dash(dash: &Json) -> (r: Option<Vec<Track>>)
    ensures
        match dash_tracks_spec(*dash) {
            Some(ts) => r matches Some(v) && v@.map_values(|t: Track| t@) =~= ts,
            None => r is None,
        },
{
    let vurl: Option<&String> = match dash.get("video") {
        Some(x) => match x.arr_of() {
            Some(items) => first_base_url_in(items),
            None => None,
        },
        None => None,
    };
    let aurl: Option<&String> = match dash.get("audio") {
        Some(x) => match x.arr_of() {
            Some(items) => first_base_url_in(items),
            None => None,
        },
        None => None,
    };
    match (vurl, aurl) {
        (Some(v), Some(a)) => Some(vec![Track::Video(v.clone()), Track::Audio(a.clone())]),
        (Some(v), None) => Some(vec![Track::Video(v.clone())]),
        (None, Some(a)) => Some(vec![Track::Audio(a.clone())]),
        (None, None) => None,
    }
}

fn parse_durl(durl: &Json) -> (r: Option<Vec<Track>>)
    ensures
        match durl_tracks_spec(*durl) {
            Some(ts) => r matches Some(v) && v@.map_values(|t: Track| t@) =~= ts,
            None => r is None,
        },
{
    let items = match durl.arr_of() {
        Some(items) => items,
        None => {
            return None;
        },
    };
    let n = items.len();
    if n == 0 {
        return None;
    }
    let mut tracks: Vec<Track> = Vec::new();
    let mut i: usize = 0;
    while i < n
        invariant
            arr_spec(*durl) == Some(items@),
            n == items@.len(),
            0 <= i <= n,
            tracks@.len() == i,
            forall|j: int| 0 <= j < i ==> str_spec(get_j(#[trigger] items@[j], "url"@)) is Some,
            forall|j: int| 0 <= j < i ==> tracks@[j]@ == TrackV::Video(entry_url_of(items@[j])),
        decreases n - i,
    {
        let entry = &items[i];
        let url = match entry.get("url") {
            Some(v) => match v.str_of() {
                Some(s) => s,
                None => {
                    proof {
                        assert(str_spec(get_j(items@[i as int], "url"@)) is None);
                        assert(!durl_all_ok(items@));
                    }
                    return None;
                },
            },
            None => {
                proof {
                    assert(get_j(items@[i as int], "url"@) == Json::Null);
                    assert(!durl_all_ok(items@));
                }
                return None;
            },
        };
        tracks.push(Track::Video(url.clone()));
        i = i + 1;
    }
    proof {
        assert(durl_all_ok(items@));
        assert(tracks@.map_values(|t: Track| t@) =~= durl_tracks_of(items@));
    }
    Some(tracks)
}

/// The payload an unexpected response is reported with.
pub open spec fn resp_payload(resp: Response) -> Json {
    match resp {
        Response::Json(j) => j,
        Response::Text(t) => Json::Str(t),
        Response::Failed => Json::Null,
    }
}

/// The best-effort title of a metadata response: empty on any failure.
pub open spec fn title_of_info(resp: Response) -> Seq<char> {
    match resp {
        Response::Json(j) => match str_spec(get_j(get_j(j, "data"@), "title"@)) {
            Some(t) => t,
            None => Seq::empty(),
        },
        _ => Seq::empty(),
    }
}

pub open spec fn one_origin_playlist(tracks: Seq<TrackV>, label: Seq<char>, title: Seq<char>) -> PlaylistV {
    PlaylistV { raws: seq![OriginV { tracks: tracks, title: label }], title: title }
}

// ---------------------------------------------------------------------
// Base resolver: manifest fetch, then best-effort title fetch
// ---------------------------------------------------------------------

pub enum BaseStateV {
    Idle,
    Manifest,
    Title { tracks: Seq<TrackV> },
    Finished,
}

/// One transition of the base resolver. From `Manifest`, a recognized
/// manifest response moves to the title fetch; an unrecognized shape
/// fails with the payload; a failed fetch fails with the manifest URL.
/// From `Title`, any response finishes: the title is best-effort and a
/// failed or unusable title response yields the empty title.
pub open spec fn base_step(aid: u64, cid: u64, label: Seq<char>, s: BaseStateV, resp: Response) -> (
    BaseStateV,
    OutcomeV,
) {
    match s {
        BaseStateV::Manifest => match resp {
            Response::Json(j) => match normalize_spec(j) {
                Some(tracks) => (
                    BaseStateV::Title { tracks },
                    OutcomeV::Next(RequestV::Get { url: info_api_url_aid_spec(aid) }),
                ),
                None => (
                    BaseStateV::Finished,
                    OutcomeV::Failed(ErrorV::InvalidResponse { resp: j }),
                ),
            },
            Response::Text(t) => (
                BaseStateV::Finished,
                OutcomeV::Failed(ErrorV::InvalidResponse { resp: Json::Str(t) }),
            ),
            Response::Failed => (
                BaseStateV::Finished,
                OutcomeV::Failed(ErrorV::Network { url: base_video_api_url_spec(aid, cid) }),
            ),
        },
        BaseStateV::Title { tracks } => (
            BaseStateV::Finished,
            OutcomeV::Done(one_origin_playlist(tracks, label, title_of_info(resp))),
        ),
        _ => (
            BaseStateV::Finished,
            OutcomeV::Failed(ErrorV::InvalidResponse { resp: resp_payload(resp) }),
        ),
    }
}

/// The outcome of feeding the base resolver a sequence of responses,
/// if it terminates within them.
pub open spec fn base_run(
    aid: u64,
    cid: u64,
    label: Seq<char>,
    s: BaseStateV,
    resps: Seq<Response>,
) -> Option<OutcomeV>
    decreases resps.len(),
{
    if resps.len() == 0 {
        None
    } else {
        let (s2, out) = base_step(aid, cid, label, s, resps[0]);
        match out {
            OutcomeV::Next(_) => base_run(aid, cid, label, s2, resps.drop_first()),
            _ => Some(out),
        }
    }
}

enum BaseState {
    Idle,
    Manifest,
    Title { tracks: Vec<Track> },
    Finished,
}

spec fn bstate_view(s: BaseState) -> BaseStateV {
    match s {
        BaseState::Idle => BaseStateV::Idle,
        BaseState::Manifest => BaseStateV::Manifest,
        BaseState::Title { tracks } => BaseStateV::Title {
            tracks: tracks@.map_values(|t: Track| t@),
        },
        BaseState::Finished => BaseStateV::Finished,
    }
}

/// Resolves one stream unit from its two numeric handles: one manifest
/// lookup, one best-effort title lookup.
pub struct BaseExtractor {
    aid: u64,
    cid: u64,
    label: String,
    client: Client,
    state: BaseState,
}

pub struct BaseV {
    pub aid: u64,
    pub cid: u64,
    pub label: Seq<char>,
    pub client: Seq<(Seq<char>, Seq<char>)>,
    pub state: BaseStateV,
}

impl View for BaseExtractor {
    type V = BaseV;

    closed spec fn view(&self) -> BaseV {
        BaseV {
            aid: self.aid,
            cid: self.cid,
            label: self.label@,
            client: self.client@,
            state: bstate_view(self.state),
        }
    }
}

impl BaseExtractor {
    pub fn new(aid: u64, cid: u64, client: Client) -> (r: Self)
        ensures
            r@ == (BaseV {
                aid,
                cid,
                label: Seq::<char>::empty(),
                client: client@,
                state: BaseStateV::Idle,
            }),
    {
        BaseExtractor { aid, cid, label: String::new(), client, state: BaseState::Idle }
    }

    /// As `new`, with the label the produced origin will carry.
    pub fn with_label(aid: u64, cid: u64, client: Client, label: String) -> (r: Self)
        ensures
            r@ == (BaseV { aid, cid, label: label@, client: client@, state: BaseStateV::Idle }),
    {
        BaseExtractor { aid, cid, label, client, state: BaseState::Idle }
    }

    pub open spec fn running(&self) -> bool {
        self@.state is Manifest || self@.state is Title
    }

    pub fn is_running(&self) -> (r: bool)
        ensures
            r == self.running(),
    {
        match self.state {
            BaseState::Manifest => true,
            BaseState::Title { .. } => true,
            _ => false,
        }
    }

    pub fn client(&self) -> (r: &Client)
        ensures
            r@ == self@.client,
    {
        &self.client
    }

    pub fn set_client(&mut self, client: Client)
        ensures
            final(self)@ == (BaseV { client: client@, ..old(self)@ }),
    {
        self.client = client;
    }

    /// Begin (or begin again): the first request is the manifest lookup.
    pub fn start(&mut self) -> (r: Request)
        ensures
            final(self)@ == (BaseV { state: BaseStateV::Manifest, ..old(self)@ }),
            r@ == (RequestV::Get { url: base_video_api_url_spec(old(self)@.aid, old(self)@.cid) }),
    {
        self.state = BaseState::Manifest;
        Request::Get { url: base_video_api_url(self.aid, self.cid) }
    }

    /// Consume one response and move one step, as `base_step` says.
    pub fn on_response(&mut self, resp: Response) -> (r: Outcome)
        requires
            old(self).running(),
        ensures
            ({
                let (s2, out) = base_step(
                    old(self)@.aid,
                    old(self)@.cid,
                    old(self)@.label,
                    old(self)@.state,
                    resp,
                );
                final(self)@ == (BaseV { state: s2, ..old(self)@ }) && r@ == out
            }),
    {
        let mut st = BaseState::Finished;
        core::mem::swap(&mut st, &mut self.state);
        match st {
            BaseState::Manifest => match resp {
                Response::Json(j) => match normalize_manifest(&j) {
                    Some(tracks) => {
                        self.state = BaseState::Title { tracks };
                        Outcome::Next(Request::Get { url: info_api_url_aid(self.aid) })
                    },
                    None => Outcome::Failed(Error::InvalidResponse { resp: j }),
                },
                Response::Text(t) => Outcome::Failed(
                    Error::InvalidResponse { resp: Json::Str(t) },
                ),
                Response::Failed => Outcome::Failed(
                    Error::NetworkError { url: base_video_api_url(self.aid, self.cid) },
                ),
            },
            BaseState::Title { tracks } => {
                let title: String = match resp {
                    Response::Json(j) => match j.get("data") {
                        Some(d) => match d.get("title") {
                            Some(t) => match t.str_of() {
                                Some(s) => s.clone(),
                                None => String::new(),
                            },
                            None => String::new(),
                        },
                        None => String::new(),
                    },
                    _ => String::new(),
                };
                let origin = Origin::new(tracks, self.label.clone());
                let one = vec![origin];
                let p = Playlist::new(one, title);
                proof {
                    let tracks_v = bstate_view(old(self).state)->Title_tracks;
                    assert(p@.raws =~= seq![OriginV { tracks: tracks_v, title: old(self)@.label }]);
                }
                Outcome::Done(p)
            },
            _ => Outcome::Failed(
                Error::InvalidResponse {
                    resp: match resp {
                        Response::Json(j) => j,
                        Response::Text(t) => Json::Str(t),
                        Response::Failed => Json::Null,
                    },
                },
            ),
        }
    }
}

/// Normalize one manifest response: the split-stream shape first, the
/// combined-stream shape as fallback, nothing when neither matches.
pub fn normalize_manifest(data: &Json) -> (r: Option<Vec<Track>>)
    ensures
        match normalize_spec(*data) {
            Some(ts) => r matches Some(v) && v@.map_values(|t: Track| t@) =~= ts,
            None => r is None,
        },
{
    let inner: Option<&Json> = match data.get("data") {
        Some(d) => d.get("dash"),
        None => None,
    };
    let from_dash = match inner {
        Some(d) => parse_dash(d),
        None => None,
    };
    match from_dash {
        Some(t) => Some(t),
        None => {
            let durl: Option<&Json> = match data.get("data") {
                Some(d) => d.get("durl"),
                None => None,
            };
            match durl {
                Some(d) => parse_durl(d),
                None => None,
            }
        },
    }
}

// ---------------------------------------------------------------------
// Video resolver: page list, then numeric id, then the base resolver
// ---------------------------------------------------------------------

/// The page entry a 1-based page index selects, the first page when no
/// index was given; nothing when the index misses the list.
pub open spec fn pick_page_spec(pages: Seq<Json>, page: Option<u64>) -> Option<Json> {
    let p: u64 = match page {
        Some(p) => p,
        None => 1,
    };
    if 1 <= p && p - 1 < pages.len() {
        Some(pages[p - 1])
    } else {
        None
    }
}

/// The label of one page entry: its part title, empty when absent.
pub open spec fn part_of(page: Json) -> Seq<char> {
    match str_spec(get_j(page, "part"@)) {
        Some(s) => s,
        None => Seq::empty(),
    }
}

pub enum VideoStateV {
    Idle,
    Pages,
    Info { cid: u64, part: Seq<char> },
    Base { aid: u64, cid: u64, label: Seq<char>, base: BaseStateV },
    Finished,
}

pub open spec fn video_state_running(s: VideoStateV) -> bool {
    match s {
        VideoStateV::Pages => true,
        VideoStateV::Info { .. } => true,
        VideoStateV::Base { base, .. } => base is Manifest || base is Title,
        _ => false,
    }
}

/// One transition of the video resolver: the page-list response yields
/// the selected page's numeric handle and part title; the metadata
/// response yields the platform id; from there every step is the base
/// resolver's, with the part title as the origin label.
pub open spec fn video_step(id: IdV, page: Option<u64>, s: VideoStateV, resp: Response) -> (
    VideoStateV,
    OutcomeV,
) {
    match s {
        VideoStateV::Pages => match resp {
            Response::Json(j) => match arr_spec(get_j(j, "data"@)) {
                Some(pages) => match pick_page_spec(pages, page) {
                    Some(pg) => match u64_spec(get_j(pg, "cid"@)) {
                        Some(cid) => (
                            VideoStateV::Info { cid, part: part_of(pg) },
                            OutcomeV::Next(RequestV::Get { url: info_api_url_spec(id) }),
                        ),
                        None => (
                            VideoStateV::Finished,
                            OutcomeV::Failed(ErrorV::InvalidResponse { resp: j }),
                        ),
                    },
                    None => (
                        VideoStateV::Finished,
                        OutcomeV::Failed(ErrorV::InvalidResponse { resp: j }),
                    ),
                },
                None => (
                    VideoStateV::Finished,
                    OutcomeV::Failed(ErrorV::InvalidResponse { resp: j }),
                ),
            },
            Response::Text(t) => (
                VideoStateV::Finished,
                OutcomeV::Failed(ErrorV::InvalidResponse { resp: Json::Str(t) }),
            ),
            Response::Failed => (
                VideoStateV::Finished,
                OutcomeV::Failed(ErrorV::Network { url: cid_api_url_spec(id) }),
            ),
        },
        VideoStateV::Info { cid, part } => match resp {
            Response::Json(j) => match u64_spec(get_j(get_j(j, "data"@), "aid"@)) {
                Some(aid) => (
                    VideoStateV::Base { aid, cid, label: part, base: BaseStateV::Manifest },
                    OutcomeV::Next(RequestV::Get { url: base_video_api_url_spec(aid, cid) }),
                ),
                None => (
                    VideoStateV::Finished,
                    OutcomeV::Failed(ErrorV::InvalidResponse { resp: j }),
                ),
            },
            Response::Text(t) => (
                VideoStateV::Finished,
                OutcomeV::Failed(ErrorV::InvalidResponse { resp: Json::Str(t) }),
            ),
            Response::Failed => (
                VideoStateV::Finished,
                OutcomeV::Failed(ErrorV::Network { url: info_api_url_spec(id) }),
            ),
        },
        VideoStateV::Base { aid, cid, label, base } => {
            let (b2, out) = base_step(aid, cid, label, base, resp);
            (VideoStateV::Base { aid, cid, label, base: b2 }, out)
        },
        _ => (
            VideoStateV::Finished,
            OutcomeV::Failed(ErrorV::InvalidResponse { resp: resp_payload(resp) }),
        ),
    }
}

/// The outcome of feeding the video resolver a sequence of responses,
/// if it terminates within them.
pub open spec fn video_run(
    id: IdV,
    page: Option<u64>,
    s: VideoStateV,
    resps: Seq<Response>,
) -> Option<OutcomeV>
    decreases resps.len(),
{
    if resps.len() == 0 {
        None
    } else {
        let (s2, out) = video_step(id, page, s, resps[0]);
        match out {
            OutcomeV::Next(_) => video_run(id, page, s2, resps.drop_first()),
            _ => Some(out),
        }
    }
}

enum VideoState {
    Idle,
    Pages,
    Info { cid: u64, part: String },
    Base { base: BaseExtractor },
    Finished,
}

spec fn vstate_view(s: VideoState) -> VideoStateV {
    match s {
        VideoState::Idle => VideoStateV::Idle,
        VideoState::Pages => VideoStateV::Pages,
        VideoState::Info { cid, part } => VideoStateV::Info { cid, part: part@ },
        VideoState::Base { base } => VideoStateV::Base {
            aid: base@.aid,
            cid: base@.cid,
            label: base@.label,
            base: base@.state,
        },
        VideoState::Finished => VideoStateV::Finished,
    }
}

/// Resolves one ordinary video URL: page-list lookup, metadata lookup,
/// then the base resolver for the selected page.
pub struct Video {
    client: Client,
    id: Id,
    page: Option<u64>,
    state: VideoState,
}

pub struct VideoV {
    pub id: IdV,
    pub page: Option<u64>,
    pub client: Seq<(Seq<char>, Seq<char>)>,
    pub state: VideoStateV,
}

impl View for Video {
    type V = VideoV;

    closed spec fn view(&self) -> VideoV {
        VideoV {
            id: self.id@,
            page: self.page,
            client: self.client@,
            state: vstate_view(self.state),
        }
    }
}

/// What parsing a video URL's parts yields: the identifier in the last
/// non-empty path segment, which must be a plain video identifier, and
/// the optional 1-based page index from the `p` query parameter.
pub open spec fn page_param_spec(parts: crate::urlinfo::UrlPartsV) -> Option<u64> {
    match crate::urlinfo::query_value(parts.query, "p"@) {
        Some(v) => parse_u64_spec(v),
        None => None,
    }
}

pub open spec fn video_new_spec(parts: crate::urlinfo::UrlPartsV) -> Result<
    (IdV, Option<u64>),
    ErrorV,
> {
    match last_nonempty_segment(parts.segments) {
        Some(seg) => match id_spec(seg) {
            Some(id) => if id is Av || id is Bv {
                Ok((id, page_param_spec(parts)))
            } else {
                Err(ErrorV::InvalidUrl { url: parts.normalized })
            },
            None => Err(ErrorV::InvalidUrl { url: parts.normalized }),
        },
        None => Err(ErrorV::InvalidUrl { url: parts.normalized }),
    }
}

impl Video {
    pub open spec fn wf(&self) -> bool {
        self@.id is Av || self@.id is Bv
    }

    pub fn new(s: &str) -> (r: Result<Video, Error>)
        ensures
            match crate::urlinfo::url_parts_of(s@) {
                Some(parts) => match video_new_spec(parts) {
                    Ok((id, page)) => r matches Ok(v) && v@.id == id && v@.page == page
                        && v@.state is Idle && v.wf() && v@.client =~= seq![
                        ("user-agent"@, crate::client::UA@),
                        ("referer"@, "https://www.bilibili.com"@),
                    ],
                    Err(e) => r matches Err(x) && x@ == e,
                },
                None => r matches Err(x) && x@ == (ErrorV::ParseUrl { url: s@ }),
            },
    {
        let parts = match crate::urlinfo::parse_url_parts(s) {
            Some(p) => p,
            None => {
                return Err(Error::ParseUrlError { url: String::from_str(s) });
            },
        };
        let id = match Id::from_url(&parts) {
            Ok(id) => id,
            Err(e) => {
                return Err(e);
            },
        };
        let page: Option<u64> = match parts.query_value("p") {
            Some(v) => parse_u64(v.as_str()),
            None => None,
        };
        match id {
            Id::Av(_) | Id::Bv(_) => Ok(Self::with_client(
                Client::with_referer("https://www.bilibili.com"),
                id,
                page,
            )),
            _ => Err(Error::InvalidUrl { url: parts.normalized }),
        }
    }

    pub fn with_id(id: Id, page: Option<u64>) -> (r: Self)
        requires
            id@ is Av || id@ is Bv,
        ensures
            r@.id == id@,
            r@.page == page,
            r@.state is Idle,
            r.wf(),
            r@.client =~= seq![
                ("user-agent"@, crate::client::UA@),
                ("referer"@, "https://www.bilibili.com"@),
            ],
    {
        Self::with_client(Client::with_referer("https://www.bilibili.com"), id, page)
    }

    pub fn with_client(client: Client, id: Id, page: Option<u64>) -> (r: Self)
        requires
            id@ is Av || id@ is Bv,
        ensures
            r@ == (VideoV { id: id@, page, client: client@, state: VideoStateV::Idle }),
            r.wf(),
    {
        Video { client, id, page, state: VideoState::Idle }
    }

    pub open spec fn running(&self) -> bool {
        video_state_running(self@.state)
    }

    pub fn is_running(&self) -> (r: bool)
        ensures
            r == self.running(),
    {
        match &self.state {
            VideoState::Pages => true,
            VideoState::Info { .. } => true,
            VideoState::Base { base } => base.is_running(),
            _ => false,
        }
    }

    pub fn client(&self) -> (r: &Client)
        ensures
            r@ == self@.client,
    {
        &self.client
    }

    pub fn set_client(&mut self, client: Client)
        ensures
            final(self)@ == (VideoV { client: client@, ..old(self)@ }),
    {
        self.client = client;
    }

    /// Begin (or begin again): the first request is the page-list lookup.
    pub fn start(&mut self) -> (r: Request)
        ensures
            final(self)@ == (VideoV { state: VideoStateV::Pages, ..old(self)@ }),
            r@ == (RequestV::Get { url: cid_api_url_spec(old(self)@.id) }),
    {
        self.state = VideoState::Pages;
        Request::Get { url: self.id.as_cid_api() }
    }

    /// Consume one response and move one step, as `video_step` says.
    pub fn on_response(&mut self, resp: Response) -> (r: Outcome)
        requires
            old(self).running(),
            old(self).wf(),
        ensures
            ({
                let (s2, out) = video_step(old(self)@.id, old(self)@.page, old(self)@.state, resp);
                final(self)@ == (VideoV { state: s2, ..old(self)@ }) && r@ == out
            }),
            final(self).wf(),
    {
        let mut st = VideoState::Finished;
        core::mem::swap(&mut st, &mut self.state);
        match st {
            VideoState::Pages => match resp {
                Response::Json(j) => {
                    let pages = match j.get("data") {
                        Some(d) => match d.arr_of() {
                            Some(a) => Some(a),
                            None => None,
                        },
                        None => None,
                    };
                    let pages = match pages {
                        Some(p) => p,
                        None => {
                            return Outcome::Failed(Error::InvalidResponse { resp: j });
                        },
                    };
                    let p: u64 = match self.page {
                        Some(p) => p,
                        None => 1,
                    };
                    if !(1 <= p && (p - 1) < pages.len() as u64) {
                        return Outcome::Failed(Error::InvalidResponse { resp: j });
                    }
                    let pg = &pages[(p - 1) as usize];
                    let cid = match pg.get("cid") {
                        Some(c) => match c.u64_of() {
                            Some(cid) => cid,
                            None => {
                                return Outcome::Failed(Error::InvalidResponse { resp: j });
                            },
                        },
                        None => {
                            return Outcome::Failed(Error::InvalidResponse { resp: j });
                        },
                    };
                    let part: String = match pg.get("part") {
                        Some(x) => match x.str_of() {
                            Some(s) => s.clone(),
                            None => String::new(),
                        },
                        None => String::new(),
                    };
                    self.state = VideoState::Info { cid, part };
                    Outcome::Next(Request::Get { url: info_api_url(&self.id) })
                },
                Response::Text(t) => Outcome::Failed(
                    Error::InvalidResponse { resp: Json::Str(t) },
                ),
                Response::Failed => Outcome::Failed(
                    Error::NetworkError { url: self.id.as_cid_api() },
                ),
            },
            VideoState::Info { cid, part } => match resp {
                Response::Json(j) => {
                    let aid = match j.get("data") {
                        Some(d) => match d.get("aid") {
                            Some(a) => match a.u64_of() {
                                Some(aid) => Some(aid),
                                None => None,
                            },
                            None => None,
                        },
                        None => None,
                    };
                    match aid {
                        Some(aid) => {
                            let mut base = BaseExtractor::with_label(
                                aid,
                                cid,
                                self.client.clone(),
                                part,
                            );
                            let req = base.start();
                            self.state = VideoState::Base { base };
                            Outcome::Next(req)
                        },
                        None => Outcome::Failed(Error::InvalidResponse { resp: j }),
                    }
                },
                Response::Text(t) => Outcome::Failed(
                    Error::InvalidResponse { resp: Json::Str(t) },
                ),
                Response::Failed => Outcome::Failed(
                    Error::NetworkError { url: info_api_url(&self.id) },
                ),
            },
            VideoState::Base { mut base } => {
                let out = base.on_response(resp);
                self.state = VideoState::Base { base };
                out
            },
            _ => Outcome::Failed(
                Error::InvalidResponse {
                    resp: match resp {
                        Response::Json(j) => j,
                        Response::Text(t) => Json::Str(t),
                        Response::Failed => Json::Null,
                    },
                },
            ),
        }
    }
}

// ---------------------------------------------------------------------
// Laws relating the video resolver and the base resolver
// ---------------------------------------------------------------------

/// Once the video resolver has delegated to the base resolver, its
/// remaining run is exactly the base resolver's run.
pub proof fn lemma_video_delegates_to_base(
    id: IdV,
    page: Option<u64>,
    aid: u64,
    cid: u64,
    label: Seq<char>,
    base: BaseStateV,
    resps: Seq<Response>,
)
    ensures
        video_run(id, page, VideoStateV::Base { aid, cid, label, base }, resps) == base_run(
            aid,
            cid,
            label,
            base,
            resps,
        ),
    decreases resps.len(),
{
    if resps.len() > 0 {
        let (b2, out) = base_step(aid, cid, label, base, resps[0]);
        if out is Next {
            lemma_video_delegates_to_base(id, page, aid, cid, label, b2, resps.drop_first());
        }
    }
}

/// The track content of a base resolution does not depend on the origin
/// label the resolver was configured with.
pub proof fn lemma_base_tracks_label_independent(
    aid: u64,
    cid: u64,
    l1: Seq<char>,
    l2: Seq<char>,
    s: BaseStateV,
    resps: Seq<Response>,
)
    ensures
        crate::outcome_tracks(base_run(aid, cid, l1, s, resps)) == crate::outcome_tracks(
            base_run(aid, cid, l2, s, resps),
        ),
    decreases resps.len(),
{
    if resps.len() > 0 {
        let (s1, out1) = base_step(aid, cid, l1, s, resps[0]);
        let (s2, out2) = base_step(aid, cid, l2, s, resps[0]);
        assert(s1 == s2);
        match out1 {
            OutcomeV::Next(_) => {
                lemma_base_tracks_label_independent(aid, cid, l1, l2, s1, resps.drop_first());
            },
            OutcomeV::Done(p1) => {
                let p2 = out2->Done_0;
                assert(p1.raws.map_values(|og: OriginV| og.tracks) =~= p2.raws.map_values(
                    |og: OriginV| og.tracks,
                ));
            },
            OutcomeV::Failed(_) => {},
        }
    }
}

/// Round trip: resolving a video identifier and then independently
/// resolving its extracted numeric handles through the base resolver
/// yields the same track content, whatever labels either carries.
pub proof fn lemma_round_trip(
    id: IdV,
    page: Option<u64>,
    aid: u64,
    cid: u64,
    l1: Seq<char>,
    l2: Seq<char>,
    base: BaseStateV,
    resps: Seq<Response>,
)
    ensures
        crate::outcome_tracks(
            video_run(id, page, VideoStateV::Base { aid, cid, label: l1, base }, resps),
        ) == crate::outcome_tracks(base_run(aid, cid, l2, base, resps)),
{
    lemma_video_delegates_to_base(id, page, aid, cid, l1, base, resps);
    lemma_base_tracks_label_independent(aid, cid, l1, l2, base, resps);
}

// ---------------------------------------------------------------------
// Season resolver: flatten the season's episode lists, pick one episode
// ---------------------------------------------------------------------

pub open spec fn arr_or_empty(j: Json) -> Seq<Json> {
    match arr_spec(j) {
        Some(a) => a,
        None => Seq::empty(),
    }
}

/// The episodes listed by a season's extra sections, in order.
pub open spec fn sections_episodes(secs: Seq<Json>) -> Seq<Json>
    decreases secs.len(),
{
    if secs.len() == 0 {
        Seq::empty()
    } else {
        sections_episodes(secs.drop_last()) + arr_or_empty(get_j(secs.last(), "episodes"@))
    }
}

/// All episodes of a season response: the main list, then each extra
/// section's list, in order.
pub open spec fn season_episodes(data: Json) -> Seq<Json> {
    arr_or_empty(get_j(get_j(data, "result"@), "episodes"@)) + sections_episodes(
        arr_or_empty(get_j(get_j(data, "result"@), "section"@)),
    )
}

pub open spec fn find_episode(eps: Seq<Json>, epid: u64) -> Option<Json>
    decreases eps.len(),
{
    if eps.len() == 0 {
        None
    } else if u64_spec(get_j(eps[0], "id"@)) == Some(epid) {
        Some(eps[0])
    } else {
        find_episode(eps.drop_first(), epid)
    }
}

/// The episode a season identifier selects: the first episode for a
/// whole-season id, the matching one for an episode id.
pub open spec fn pick_episode(eps: Seq<Json>, id: IdV) -> Option<Json> {
    match id {
        IdV::Ss(_) => if eps.len() > 0 {
            Some(eps[0])
        } else {
            None
        },
        IdV::Ep(epid) => find_episode(eps, epid),
        _ => None,
    }
}

pub enum BangumiStateV {
    Idle,
    Season,
    Base { aid: u64, cid: u64, label: Seq<char>, base: BaseStateV },
    Finished,
}

pub open spec fn bangumi_state_running(s: BangumiStateV) -> bool {
    match s {
        BangumiStateV::Season => true,
        BangumiStateV::Base { base, .. } => base is Manifest || base is Title,
        _ => false,
    }
}

/// One transition of the season resolver: the season response yields the
/// selected episode's numeric handles; from there every step is the base
/// resolver's, with the empty origin label.
pub open spec fn bangumi_step(id: IdV, s: BangumiStateV, resp: Response) -> (
    BangumiStateV,
    OutcomeV,
) {
    match s {
        BangumiStateV::Season => match resp {
            Response::Json(j) => match pick_episode(season_episodes(j), id) {
                Some(pg) => match (u64_spec(get_j(pg, "aid"@)), u64_spec(get_j(pg, "cid"@))) {
                    (Some(aid), Some(cid)) => (
                        BangumiStateV::Base {
                            aid,
                            cid,
                            label: Seq::empty(),
                            base: BaseStateV::Manifest,
                        },
                        OutcomeV::Next(RequestV::Get { url: base_video_api_url_spec(aid, cid) }),
                    ),
                    _ => (
                        BangumiStateV::Finished,
                        OutcomeV::Failed(ErrorV::InvalidResponse { resp: j }),
                    ),
                },
                None => (
                    BangumiStateV::Finished,
                    OutcomeV::Failed(ErrorV::InvalidResponse { resp: j }),
                ),
            },
            Response::Text(t) => (
                BangumiStateV::Finished,
                OutcomeV::Failed(ErrorV::InvalidResponse { resp: Json::Str(t) }),
            ),
            Response::Failed => (
                BangumiStateV::Finished,
                OutcomeV::Failed(ErrorV::Network { url: cid_api_url_spec(id) }),
            ),
        },
        BangumiStateV::Base { aid, cid, label, base } => {
            let (b2, out) = base_step(aid, cid, label, base, resp);
            (BangumiStateV::Base { aid, cid, label, base: b2 }, out)
        },
        _ => (
            BangumiStateV::Finished,
            OutcomeV::Failed(ErrorV::InvalidResponse { resp: resp_payload(resp) }),
        ),
    }
}

enum BangumiState {
    Idle,
    Season,
    Base { base: BaseExtractor },
    Finished,
}

spec fn bgstate_view(s: BangumiState) -> BangumiStateV {
    match s {
        BangumiState::Idle => BangumiStateV::Idle,
        BangumiState::Season => BangumiStateV::Season,
        BangumiState::Base { base } => BangumiStateV::Base {
            aid: base@.aid,
            cid: base@.cid,
            label: base@.label,
            base: base@.state,
        },
        BangumiState::Finished => BangumiStateV::Finished,
    }
}

/// Resolves one episode or season URL: one season lookup that lists all
/// episodes, then the base resolver for the selected episode.
pub struct Bangumi {
    client: Client,
    id: Id,
    state: BangumiState,
}

pub struct BangumiV {
    pub id: IdV,
    pub client: Seq<(Seq<char>, Seq<char>)>,
    pub state: BangumiStateV,
}

impl View for Bangumi {
    type V = BangumiV;

    closed spec fn view(&self) -> BangumiV {
        BangumiV { id: self.id@, client: self.client@, state: bgstate_view(self.state) }
    }
}

pub open spec fn bangumi_new_spec(parts: crate::urlinfo::UrlPartsV) -> Result<IdV, ErrorV> {
    match last_nonempty_segment(parts.segments) {
        Some(seg) => match id_spec(seg) {
            Some(id) => if id is Ep || id is Ss {
                Ok(id)
            } else {
                Err(ErrorV::InvalidUrl { url: parts.normalized })
            },
            None => Err(ErrorV::InvalidUrl { url: parts.normalized }),
        },
        None => Err(ErrorV::InvalidUrl { url: parts.normalized }),
    }
}

impl Bangumi {
    pub open spec fn wf(&self) -> bool {
        self@.id is Ep || self@.id is Ss
    }

    pub fn new(s: &str) -> (r: Result<Bangumi, Error>)
        ensures
            match crate::urlinfo::url_parts_of(s@) {
                Some(parts) => match bangumi_new_spec(parts) {
                    Ok(id) => r matches Ok(v) && v@.id == id && v@.state is Idle && v.wf()
                        && v@.client =~= seq![
                        ("user-agent"@, crate::client::UA@),
                        ("referer"@, "https://www.bilibili.com"@),
                    ],
                    Err(e) => r matches Err(x) && x@ == e,
                },
                None => r matches Err(x) && x@ == (ErrorV::ParseUrl { url: s@ }),
            },
    {
        let parts = match crate::urlinfo::parse_url_parts(s) {
            Some(p) => p,
            None => {
                return Err(Error::ParseUrlError { url: String::from_str(s) });
            },
        };
        let id = match Id::from_url(&parts) {
            Ok(id) => id,
            Err(e) => {
                return Err(e);
            },
        };
        match id {
            Id::Ep(_) | Id::Ss(_) => Ok(Self::with_client(
                Client::with_referer("https://www.bilibili.com"),
                id,
            )),
            _ => Err(Error::InvalidUrl { url: parts.normalized }),
        }
    }

    pub fn with_id(id: Id) -> (r: Self)
        requires
            id@ is Ep || id@ is Ss,
        ensures
            r@.id == id@,
            r@.state is Idle,
            r.wf(),
            r@.client =~= seq![
                ("user-agent"@, crate::client::UA@),
                ("referer"@, "https://www.bilibili.com"@),
            ],
    {
        Self::with_client(Client::with_referer("https://www.bilibili.com"), id)
    }

    pub fn with_client(client: Client, id: Id) -> (r: Self)
        requires
            id@ is Ep || id@ is Ss,
        ensures
            r@ == (BangumiV { id: id@, client: client@, state: BangumiStateV::Idle }),
            r.wf(),
    {
        Bangumi { client, id, state: BangumiState::Idle }
    }

    pub open spec fn running(&self) -> bool {
        bangumi_state_running(self@.state)
    }

    pub fn is_running(&self) -> (r: bool)
        ensures
            r == self.running(),
    {
        match &self.state {
            BangumiState::Season => true,
            BangumiState::Base { base } => base.is_running(),
            _ => false,
        }
    }

    pub fn client(&self) -> (r: &Client)
        ensures
            r@ == self@.client,
    {
        &self.client
    }

    pub fn set_client(&mut self, client: Client)
        ensures
            final(self)@ == (BangumiV { client: client@, ..old(self)@ }),
    {
        self.client = client;
    }

    /// Begin (or begin again): the first request is the season lookup.
    pub fn start(&mut self) -> (r: Request)
        ensures
            final(self)@ == (BangumiV { state: BangumiStateV::Season, ..old(self)@ }),
            r@ == (RequestV::Get { url: cid_api_url_spec(old(self)@.id) }),
    {
        self.state = BangumiState::Season;
        Request::Get { url: self.id.as_cid_api() }
    }

    /// Consume one response and move one step, as `bangumi_step` says.
    pub fn on_response(&mut self, resp: Response) -> (r: Outcome)
        requires
            old(self).running(),
            old(self).wf(),
        ensures
            ({
                let (s2, out) = bangumi_step(old(self)@.id, old(self)@.state, resp);
                final(self)@ == (BangumiV { state: s2, ..old(self)@ }) && r@ == out
            }),
            final(self).wf(),
    {
        let mut st = BangumiState::Finished;
        core::mem::swap(&mut st, &mut self.state);
        match st {
            BangumiState::Season => match resp {
                Response::Json(j) => {
                    let pg = match pick_episode_in(&j, &self.id) {
                        Some(pg) => pg,
                        None => {
                            return Outcome::Failed(Error::InvalidResponse { resp: j });
                        },
                    };
                    let aid = match pg.get("aid") {
                        Some(a) => a.u64_of(),
                        None => None,
                    };
                    let cid = match pg.get("cid") {
                        Some(c) => c.u64_of(),
                        None => None,
                    };
                    match (aid, cid) {
                        (Some(aid), Some(cid)) => {
                            let mut base = BaseExtractor::new(aid, cid, self.client.clone());
                            let req = base.start();
                            self.state = BangumiState::Base { base };
                            Outcome::Next(req)
                        },
                        _ => Outcome::Failed(Error::InvalidResponse { resp: j }),
                    }
                },
                Response::Text(t) => Outcome::Failed(
                    Error::InvalidResponse { resp: Json::Str(t) },
                ),
                Response::Failed => Outcome::Failed(
                    Error::NetworkError { url: self.id.as_cid_api() },
                ),
            },
            BangumiState::Base { mut base } => {
                let out = base.on_response(resp);
                self.state = BangumiState::Base { base };
                out
            },
            _ => Outcome::Failed(
                Error::InvalidResponse {
                    resp: match resp {
                        Response::Json(j) => j,
                        Response::Text(t) => Json::Str(t),
                        Response::Failed => Json::Null,
                    },
                },
            ),
        }
    }
}

spec fn deref_seq(s: Seq<&Json>) -> Seq<Json> {
    s.map_values(|e: &Json| *e)
}

proof fn lemma_deref_push(s: Seq<&Json>, x: &Json)
    ensures
        deref_seq(s.push(x)) =~= deref_seq(s).push(*x),
{
    assert forall|j: int| 0 <= j < s.len() + 1 implies deref_seq(s.push(x))[j] == deref_seq(
        s,
    ).push(*x)[j] by {
        if j < s.len() {
            assert(s.push(x)[j] == s[j]);
        } else {
            assert(s.push(x)[j] == x);
        }
    }
}

/// Collect all episode entries of a season response, in order.
fn season_episodes_in<'a>(j: &'a Json) -> (r: Vec<&'a Json>)
    ensures
        deref_seq(r@) =~= season_episodes(*j),
{
    let mut eps: Vec<&Json> = Vec::new();
    let res: Option<&Json> = j.get("result");
    let main: Option<&Vec<Json>> = match res {
        Some(rj) => match rj.get("episodes") {
            Some(e) => e.arr_of(),
            None => None,
        },
        None => None,
    };
    match main {
        Some(arr) => {
            let n = arr.len();
            let mut i: usize = 0;
            while i < n
                invariant
                    n == arr@.len(),
                    0 <= i <= n,
                    deref_seq(eps@) =~= arr@.take(i as int),
                decreases n - i,
            {
                let ghost eps0 = eps@;
                eps.push(&arr[i]);
                proof {
                    lemma_deref_push(eps0, &arr[i as int]);
                    assert(arr@.take(i + 1) =~= arr@.take(i as int).push(arr@[i as int]));
                    assert(deref_seq(eps@) =~= arr@.take(i + 1));
                }
                i = i + 1;
            }
            proof {
                assert(arr@.take(n as int) =~= arr@);
            }
        },
        None => {},
    }
    proof {
        assert(deref_seq(eps@) =~= arr_or_empty(
            get_j(get_j(*j, "result"@), "episodes"@),
        ));
    }
    let ghost main_eps = arr_or_empty(get_j(get_j(*j, "result"@), "episodes"@));
    let secs: Option<&Vec<Json>> = match res {
        Some(rj) => match rj.get("section") {
            Some(s) => s.arr_of(),
            None => None,
        },
        None => None,
    };
    match secs {
        Some(sarr) => {
            let m = sarr.len();
            let mut k: usize = 0;
            while k < m
                invariant
                    m == sarr@.len(),
                    0 <= k <= m,
                    deref_seq(eps@) =~= main_eps + sections_episodes(
                        sarr@.take(k as int),
                    ),
                decreases m - k,
            {
                let sec = &sarr[k];
                match sec.get("episodes") {
                    Some(e) => match e.arr_of() {
                        Some(earr) => {
                            let t = earr.len();
                            let mut q: usize = 0;
                            while q < t
                                invariant
                                    t == earr@.len(),
                                    0 <= q <= t,
                                    deref_seq(eps@) =~= main_eps
                                        + sections_episodes(sarr@.take(k as int)) + earr@.take(
                                        q as int,
                                    ),
                                decreases t - q,
                            {
                                let ghost eps0 = eps@;
                                eps.push(&earr[q]);
                                proof {
                                    lemma_deref_push(eps0, &earr[q as int]);
                                    assert(earr@.take(q + 1) =~= earr@.take(q as int).push(
                                        earr@[q as int],
                                    ));
                                    assert(deref_seq(eps@) =~= (main_eps + sections_episodes(
                                        sarr@.take(k as int),
                                    ) + earr@.take(q as int)).push(earr@[q as int]));
                                    assert(deref_seq(eps@) =~= main_eps + sections_episodes(
                                        sarr@.take(k as int),
                                    ) + earr@.take(q + 1));
                                }
                                q = q + 1;
                            }
                            proof {
                                assert(earr@.take(t as int) =~= earr@);
                            }
                        },
                        None => {},
                    },
                    None => {},
                }
                proof {
                    assert(sarr@.take(k + 1).drop_last() =~= sarr@.take(k as int));
                    assert(sarr@.take(k + 1).last() == sarr@[k as int]);
                    assert(deref_seq(eps@) =~= main_eps + sections_episodes(
                        sarr@.take(k + 1),
                    ));
                }
                k = k + 1;
            }
            proof {
                assert(sarr@.take(m as int) =~= sarr@);
            }
        },
        None => {
            proof {
                assert(sections_episodes(
                    arr_or_empty(get_j(get_j(*j, "result"@), "section"@)),
                ) =~= Seq::<Json>::empty());
            }
        },
    }
    eps
}

/// Select the episode a season identifier names from a season response.
fn pick_episode_in<'a>(j: &'a Json, id: &Id) -> (r: Option<&'a Json>)
    requires
        id@ is Ep || id@ is Ss,
    ensures
        match pick_episode(season_episodes(*j), id@) {
            Some(v) => r matches Some(x) && *x == v,
            None => r is None,
        },
{
    let eps = season_episodes_in(j);
    let ghost all = season_episodes(*j);
    match id {
        Id::Ss(_) => {
            if eps.len() > 0 {
                proof {
                    assert(*eps@[0] == all[0]);
                }
                Some(eps[0])
            } else {
                None
            }
        },
        Id::Ep(epid) => {
            let n = eps.len();
            let mut i: usize = 0;
            proof {
                assert(all.skip(0) =~= all);
            }
            while i < n
                invariant
                    id@ == IdV::Ep(*epid),
                    n == eps@.len(),
                    0 <= i <= n,
                    deref_seq(eps@) =~= all,
                    n == all.len(),
                    all == season_episodes(*j),
                    find_episode(all, *epid) == find_episode(all.skip(i as int), *epid),
                decreases n - i,
            {
                proof {
                    assert(all.skip(i as int)[0] == all[i as int]);
                    assert(*eps@[i as int] == all[i as int]);
                }
                let ep = eps[i];
                let idv = match ep.get("id") {
                    Some(v) => v.u64_of(),
                    None => None,
                };
                match idv {
                    Some(v) => {
                        if v == *epid {
                            return Some(ep);
                        }
                    },
                    None => {},
                }
                proof {
                    assert(all.skip(i as int).drop_first() =~= all.skip(i as int + 1));
                }
                i = i + 1;
            }
            None
        },
        _ => None,
    }
}

// ---------------------------------------------------------------------
// Live-room resolvers
// ---------------------------------------------------------------------

pub open spec fn live_api_url_spec(cid: u64) -> Seq<char> {
    "https://api.live.bilibili.com/room/v1/Room/playUrl"@ + "?cid="@ + dec_str(cid as nat)
        + "&platform=h5&quality=4"@
}

pub open spec fn live_info_url_spec(id: u64) -> Seq<char> {
    "http://api.live.bilibili.com/room/v1/Room/room_init"@ + "?id="@ + dec_str(id as nat)
}

pub open spec fn space_api_url_spec(uid: u64) -> Seq<char> {
    "https://api.bilibili.com/x/space/acc/info"@ + "?mid="@ + dec_str(uid as nat)
}

pub enum BaseLiveStateV {
    Idle,
    Stream,
    Finished,
}

/// One transition of the base live resolver: the room's status response
/// yields the single direct stream URL, as one untitled video origin.
pub open spec fn base_live_step(cid: u64, s: BaseLiveStateV, resp: Response) -> (
    BaseLiveStateV,
    OutcomeV,
) {
    match s {
        BaseLiveStateV::Stream => match resp {
            Response::Json(j) => match str_spec(
                get_j(at_j(get_j(get_j(j, "data"@), "durl"@), 0), "url"@),
            ) {
                Some(u) => (
                    BaseLiveStateV::Finished,
                    OutcomeV::Done(
                        one_origin_playlist(seq![TrackV::Video(u)], Seq::empty(), Seq::empty()),
                    ),
                ),
                None => (
                    BaseLiveStateV::Finished,
                    OutcomeV::Failed(ErrorV::InvalidResponse { resp: j }),
                ),
            },
            Response::Text(t) => (
                BaseLiveStateV::Finished,
                OutcomeV::Failed(ErrorV::InvalidResponse { resp: Json::Str(t) }),
            ),
            Response::Failed => (
                BaseLiveStateV::Finished,
                OutcomeV::Failed(ErrorV::Network { url: live_api_url_spec(cid) }),
            ),
        },
        _ => (
            BaseLiveStateV::Finished,
            OutcomeV::Failed(ErrorV::InvalidResponse { resp: resp_payload(resp) }),
        ),
    }
}

enum BaseLiveState {
    Idle,
    Stream,
    Finished,
}

spec fn blstate_view(s: BaseLiveState) -> BaseLiveStateV {
    match s {
        BaseLiveState::Idle => BaseLiveStateV::Idle,
        BaseLiveState::Stream => BaseLiveStateV::Stream,
        BaseLiveState::Finished => BaseLiveStateV::Finished,
    }
}

/// Resolves one live room's direct stream URL from its room handle.
pub struct BaseLiveExtractor {
    cid: u64,
    client: Client,
    state: BaseLiveState,
}

pub struct BaseLiveV {
    pub cid: u64,
    pub client: Seq<(Seq<char>, Seq<char>)>,
    pub state: BaseLiveStateV,
}

impl View for BaseLiveExtractor {
    type V = BaseLiveV;

    closed spec fn view(&self) -> BaseLiveV {
        BaseLiveV { cid: self.cid, client: self.client@, state: blstate_view(self.state) }
    }
}

impl BaseLiveExtractor {
    pub fn new(cid: u64, client: Client) -> (r: Self)
        ensures
            r@ == (BaseLiveV { cid, client: client@, state: BaseLiveStateV::Idle }),
    {
        BaseLiveExtractor { cid, client, state: BaseLiveState::Idle }
    }

    pub fn as_live_url(&self) -> (r: String)
        ensures
            r@ == live_api_url_spec(self@.cid),
    {
        let mut s = String::from_str("https://api.live.bilibili.com/room/v1/Room/playUrl");
        s.append("?cid=");
        s.append(u64_to_string(self.cid).as_str());
        s.append("&platform=h5&quality=4");
        s
    }

    pub open spec fn running(&self) -> bool {
        self@.state is Stream
    }

    pub fn is_running(&self) -> (r: bool)
        ensures
            r == self.running(),
    {
        match self.state {
            BaseLiveState::Stream => true,
            _ => false,
        }
    }

    pub fn client(&self) -> (r: &Client)
        ensures
            r@ == self@.client,
    {
        &self.client
    }

    pub fn set_client(&mut self, client: Client)
        ensures
            final(self)@ == (BaseLiveV { client: client@, ..old(self)@ }),
    {
        self.client = client;
    }

    /// Begin (or begin again): the one request is the room status lookup.
    pub fn start(&mut self) -> (r: Request)
        ensures
            final(self)@ == (BaseLiveV { state: BaseLiveStateV::Stream, ..old(self)@ }),
            r@ == (RequestV::Get { url: live_api_url_spec(old(self)@.cid) }),
    {
        self.state = BaseLiveState::Stream;
        Request::Get { url: self.as_live_url() }
    }

    /// Consume one response and move one step, as `base_live_step` says.
    pub fn on_response(&mut self, resp: Response) -> (r: Outcome)
        requires
            old(self).running(),
        ensures
            ({
                let (s2, out) = base_live_step(old(self)@.cid, old(self)@.state, resp);
                final(self)@ == (BaseLiveV { state: s2, ..old(self)@ }) && r@ == out
            }),
    {
        self.state = BaseLiveState::Finished;
        match resp {
            Response::Json(j) => {
                let url: Option<&String> = match j.get("data") {
                    Some(d) => match d.get("durl") {
                        Some(durl) => match durl.at(0) {
                            Some(first) => match first.get("url") {
                                Some(u) => u.str_of(),
                                None => None,
                            },
                            None => None,
                        },
                        None => None,
                    },
                    None => None,
                };
                match url {
                    Some(u) => {
                        let origin = Origin::video(u.clone(), String::new());
                        let p = Playlist::new(vec![origin], String::new());
                        proof {
                            assert(p@.raws =~= seq![
                                OriginV { tracks: seq![TrackV::Video(u@)], title: Seq::empty() },
                            ]);
                        }
                        Outcome::Done(p)
                    },
                    None => Outcome::Failed(Error::InvalidResponse { resp: j }),
                }
            },
            Response::Text(t) => Outcome::Failed(Error::InvalidResponse { resp: Json::Str(t) }),
            Response::Failed => Outcome::Failed(Error::NetworkError { url: self.as_live_url() }),
        }
    }
}

/// The best-effort room title of an owner-space response: empty on any
/// failure or unusable shape.
pub open spec fn live_title_of(resp: Response) -> Seq<char> {
    match resp {
        Response::Json(j) => match str_spec(
            get_j(get_j(get_j(j, "data"@), "live_room"@), "title"@),
        ) {
            Some(t) => t,
            None => Seq::empty(),
        },
        _ => Seq::empty(),
    }
}

pub enum LiveStateV {
    Idle,
    RoomInit,
    Stream { cid: u64, uid: u64, base: BaseLiveStateV },
    TitleFetch { origins: Seq<OriginV>, uid: u64 },
    Finished,
}

pub open spec fn live_state_running(s: LiveStateV) -> bool {
    match s {
        LiveStateV::RoomInit => true,
        LiveStateV::Stream { base, .. } => base is Stream,
        LiveStateV::TitleFetch { .. } => true,
        _ => false,
    }
}

/// One transition of the live resolver: the room lookup yields the room
/// and owner handles; the base live resolver yields the stream origin;
/// the owner's space lookup yields the room title, best-effort: a failed
/// or unusable title response yields the empty title.
pub open spec fn live_step(id: u64, s: LiveStateV, resp: Response) -> (LiveStateV, OutcomeV) {
    match s {
        LiveStateV::RoomInit => match resp {
            Response::Json(j) => match (
                u64_spec(get_j(get_j(j, "data"@), "room_id"@)),
                u64_spec(get_j(get_j(j, "data"@), "uid"@)),
            ) {
                (Some(cid), Some(uid)) => (
                    LiveStateV::Stream { cid, uid, base: BaseLiveStateV::Stream },
                    OutcomeV::Next(RequestV::Get { url: live_api_url_spec(cid) }),
                ),
                _ => (
                    LiveStateV::Finished,
                    OutcomeV::Failed(ErrorV::InvalidResponse { resp: j }),
                ),
            },
            Response::Text(t) => (
                LiveStateV::Finished,
                OutcomeV::Failed(ErrorV::InvalidResponse { resp: Json::Str(t) }),
            ),
            Response::Failed => (
                LiveStateV::Finished,
                OutcomeV::Failed(ErrorV::Network { url: live_info_url_spec(id) }),
            ),
        },
        LiveStateV::Stream { cid, uid, base } => {
            let (b2, out) = base_live_step(cid, base, resp);
            match out {
                OutcomeV::Done(p) => (
                    LiveStateV::TitleFetch { origins: p.raws, uid },
                    OutcomeV::Next(RequestV::Get { url: space_api_url_spec(uid) }),
                ),
                OutcomeV::Failed(e) => (LiveStateV::Finished, OutcomeV::Failed(e)),
                OutcomeV::Next(req) => (LiveStateV::Stream { cid, uid, base: b2 }, OutcomeV::Next(req)),
            }
        },
        LiveStateV::TitleFetch { origins, uid } => (
            LiveStateV::Finished,
            OutcomeV::Done(PlaylistV { raws: origins, title: live_title_of(resp) }),
        ),
        _ => (
            LiveStateV::Finished,
            OutcomeV::Failed(ErrorV::InvalidResponse { resp: resp_payload(resp) }),
        ),
    }
}

enum LiveState {
    Idle,
    RoomInit,
    Stream { uid: u64, base: BaseLiveExtractor },
    TitleFetch { origins: Vec<Origin>, uid: u64 },
    Finished,
}

spec fn lstate_view(s: LiveState) -> LiveStateV {
    match s {
        LiveState::Idle => LiveStateV::Idle,
        LiveState::RoomInit => LiveStateV::RoomInit,
        LiveState::Stream { uid, base } => LiveStateV::Stream {
            cid: base@.cid,
            uid: uid,
            base: base@.state,
        },
        LiveState::TitleFetch { origins, uid } => LiveStateV::TitleFetch {
            origins: origins@.map_values(|o: Origin| o@),
            uid: uid,
        },
        LiveState::Finished => LiveStateV::Finished,
    }
}

/// Resolves one live-room URL: room lookup, stream lookup, then the
/// owner's space lookup for the room title.
pub struct Live {
    id: u64,
    client: Client,
    state: LiveState,
}

pub struct LiveV {
    pub id: u64,
    pub client: Seq<(Seq<char>, Seq<char>)>,
    pub state: LiveStateV,
}

impl View for Live {
    type V = LiveV;

    closed spec fn view(&self) -> LiveV {
        LiveV { id: self.id, client: self.client@, state: lstate_view(self.state) }
    }
}

pub open spec fn live_new_spec(parts: crate::urlinfo::UrlPartsV) -> Result<u64, ErrorV> {
    match last_nonempty_segment(parts.segments) {
        Some(seg) => match parse_u64_spec(seg) {
            Some(id) => Ok(id),
            None => Err(ErrorV::InvalidUrl { url: parts.normalized }),
        },
        None => Err(ErrorV::InvalidUrl { url: parts.normalized }),
    }
}

impl Live {
    pub fn new(s: &str) -> (r: Result<Live, Error>)
        ensures
            match crate::urlinfo::url_parts_of(s@) {
                Some(parts) => match live_new_spec(parts) {
                    Ok(id) => r matches Ok(v) && v@.id == id && v@.state is Idle && v@.client
                        =~= seq![("user-agent"@, crate::client::UA@)],
                    Err(e) => r matches Err(x) && x@ == e,
                },
                None => r matches Err(x) && x@ == (ErrorV::ParseUrl { url: s@ }),
            },
    {
        let parts = match crate::urlinfo::parse_url_parts(s) {
            Some(p) => p,
            None => {
                return Err(Error::ParseUrlError { url: String::from_str(s) });
            },
        };
        let seg = match parts.last_nonempty_segment() {
            Some(seg) => seg,
            None => {
                return Err(Error::InvalidUrl { url: parts.normalized });
            },
        };
        let id = match parse_u64(seg.as_str()) {
            Some(id) => id,
            None => {
                return Err(Error::InvalidUrl { url: parts.normalized });
            },
        };
        Ok(Live { id, client: Client::new(), state: LiveState::Idle })
    }

    pub fn with_id(id: u64) -> (r: Self)
        ensures
            r@ == (LiveV {
                id,
                client: seq![("user-agent"@, crate::client::UA@)],
                state: LiveStateV::Idle,
            }),
    {
        let client = Client::new();
        proof {
            assert(client@ =~= seq![("user-agent"@, crate::client::UA@)]);
        }
        Live { id, client, state: LiveState::Idle }
    }

    pub fn as_info_url(&self) -> (r: String)
        ensures
            r@ == live_info_url_spec(self@.id),
    {
        let mut s = String::from_str("http://api.live.bilibili.com/room/v1/Room/room_init");
        s.append("?id=");
        s.append(u64_to_string(self.id).as_str());
        s
    }

    pub open spec fn running(&self) -> bool {
        live_state_running(self@.state)
    }

    pub fn is_running(&self) -> (r: bool)
        ensures
            r == self.running(),
    {
        match &self.state {
            LiveState::RoomInit => true,
            LiveState::Stream { base, .. } => base.is_running(),
            LiveState::TitleFetch { .. } => true,
            _ => false,
        }
    }

    pub fn client(&self) -> (r: &Client)
        ensures
            r@ == self@.client,
    {
        &self.client
    }

    pub fn set_client(&mut self, client: Client)
        ensures
            final(self)@ == (LiveV { client: client@, ..old(self)@ }),
    {
        self.client = client;
    }

    /// Begin (or begin again): the first request is the room lookup.
    pub fn start(&mut self) -> (r: Request)
        ensures
            final(self)@ == (LiveV { state: LiveStateV::RoomInit, ..old(self)@ }),
            r@ == (RequestV::Get { url: live_info_url_spec(old(self)@.id) }),
    {
        self.state = LiveState::RoomInit;
        Request::Get { url: self.as_info_url() }
    }

    /// Consume one response and move one step, as `live_step` says.
    pub fn on_response(&mut self, resp: Response) -> (r: Outcome)
        requires
            old(self).running(),
        ensures
            ({
                let (s2, out) = live_step(old(self)@.id, old(self)@.state, resp);
                final(self)@ == (LiveV { state: s2, ..old(self)@ }) && r@ == out
            }),
    {
        let mut st = LiveState::Finished;
        core::mem::swap(&mut st, &mut self.state);
        match st {
            LiveState::RoomInit => match resp {
                Response::Json(j) => {
                    let cid = match j.get("data") {
                        Some(d) => match d.get("room_id") {
                            Some(c) => c.u64_of(),
                            None => None,
                        },
                        None => None,
                    };
                    let uid = match j.get("data") {
                        Some(d) => match d.get("uid") {
                            Some(u) => u.u64_of(),
                            None => None,
                        },
                        None => None,
                    };
                    match (cid, uid) {
                        (Some(cid), Some(uid)) => {
                            let mut base = BaseLiveExtractor::new(cid, self.client.clone());
                            let req = base.start();
                            self.state = LiveState::Stream { uid, base };
                            Outcome::Next(req)
                        },
                        _ => Outcome::Failed(Error::InvalidResponse { resp: j }),
                    }
                },
                Response::Text(t) => Outcome::Failed(
                    Error::InvalidResponse { resp: Json::Str(t) },
                ),
                Response::Failed => Outcome::Failed(
                    Error::NetworkError { url: self.as_info_url() },
                ),
            },
            LiveState::Stream { uid, mut base } => {
                let out = base.on_response(resp);
                match out {
                    Outcome::Done(p) => {
                        let (origins, _title) = p.into_parts();
                        self.state = LiveState::TitleFetch { origins, uid };
                        let mut s = String::from_str("https://api.bilibili.com/x/space/acc/info");
                        s.append("?mid=");
                        s.append(u64_to_string(uid).as_str());
                        Outcome::Next(Request::Get { url: s })
                    },
                    Outcome::Failed(e) => Outcome::Failed(e),
                    Outcome::Next(req) => {
                        self.state = LiveState::Stream { uid, base };
                        Outcome::Next(req)
                    },
                }
            },
            LiveState::TitleFetch { origins, uid: _uid } => {
                let title: String = match resp {
                    Response::Json(j) => match j.get("data") {
                        Some(d) => match d.get("live_room") {
                            Some(lr) => match lr.get("title") {
                                Some(t) => match t.str_of() {
                                    Some(x) => x.clone(),
                                    None => String::new(),
                                },
                                None => String::new(),
                            },
                            None => String::new(),
                        },
                        None => String::new(),
                    },
                    _ => String::new(),
                };
                Outcome::Done(Playlist::new(origins, title))
            },
            _ => Outcome::Failed(
                Error::InvalidResponse {
                    resp: match resp {
                        Response::Json(j) => j,
                        Response::Text(t) => Json::Str(t),
                        Response::Failed => Json::Null,
                    },
                },
            ),
        }
    }
}

/// Idempotence: the video resolver is a function of its inputs; equal
/// identifiers, page selections, states and responses resolve to equal
/// outcomes.
pub proof fn lemma_video_resolution_deterministic(
    id1: IdV,
    id2: IdV,
    page1: Option<u64>,
    page2: Option<u64>,
    s1: VideoStateV,
    s2: VideoStateV,
    resps1: Seq<Response>,
    resps2: Seq<Response>,
)
    requires
        id1 == id2,
        page1 == page2,
        s1 == s2,
        resps1 == resps2,
    ensures
        video_run(id1, page1, s1, resps1) == video_run(id2, page2, s2, resps2),
{
}

// ---------------------------------------------------------------------
// Laws of origin content: an origin always holds at least one track
// ---------------------------------------------------------------------

/// Every successful normalization yields at least one track.
pub proof fn lemma_normalize_tracks_nonempty(data: Json)
    ensures
        normalize_spec(data) matches Some(ts) ==> ts.len() >= 1,
{
}

/// A track-holding state of the base resolver never holds an empty list.
pub open spec fn base_state_ok(s: BaseStateV) -> bool {
    s matches BaseStateV::Title { tracks } ==> tracks.len() >= 1
}

/// Every origin a finished base resolution reports holds at least one
/// track: exactly one origin, never empty.
pub proof fn lemma_base_done_origins_nonempty(
    aid: u64,
    cid: u64,
    label: Seq<char>,
    s: BaseStateV,
    resp: Response,
)
    requires
        base_state_ok(s),
    ensures
        ({
            let (s2, out) = base_step(aid, cid, label, s, resp);
            base_state_ok(s2) && (out matches OutcomeV::Done(p) ==> p.raws.len() == 1
                && p.raws[0].tracks.len() >= 1)
        }),
{
    match s {
        BaseStateV::Manifest => match resp {
            Response::Json(j) => {
                lemma_normalize_tracks_nonempty(j);
            },
            _ => {},
        },
        _ => {},
    }
}

pub open spec fn video_state_ok(s: VideoStateV) -> bool {
    s matches VideoStateV::Base { base, .. } ==> base_state_ok(base)
}

/// Every origin a finished video resolution reports holds at least one
/// track.
pub proof fn lemma_video_done_origins_nonempty(
    id: IdV,
    page: Option<u64>,
    s: VideoStateV,
    resp: Response,
)
    requires
        video_state_ok(s),
    ensures
        ({
            let (s2, out) = video_step(id, page, s, resp);
            video_state_ok(s2) && (out matches OutcomeV::Done(p) ==> p.raws.len() == 1
                && p.raws[0].tracks.len() >= 1)
        }),
{
    match s {
        VideoStateV::Base { aid, cid, label, base } => {
            lemma_base_done_origins_nonempty(aid, cid, label, base, resp);
        },
        _ => {},
    }
}

pub open spec fn bangumi_state_ok(s: BangumiStateV) -> bool {
    s matches BangumiStateV::Base { base, .. } ==> base_state_ok(base)
}

/// Every origin a finished season resolution reports holds at least one
/// track.
pub proof fn lemma_bangumi_done_origins_nonempty(id: IdV, s: BangumiStateV, resp: Response)
    requires
        bangumi_state_ok(s),
    ensures
        ({
            let (s2, out) = bangumi_step(id, s, resp);
            bangumi_state_ok(s2) && (out matches OutcomeV::Done(p) ==> p.raws.len() == 1
                && p.raws[0].tracks.len() >= 1)
        }),
{
    match s {
        BangumiStateV::Base { aid, cid, label, base } => {
            lemma_base_done_origins_nonempty(aid, cid, label, base, resp);
        },
        _ => {},
    }
}

/// The one origin of a finished base live resolution holds one track.
pub proof fn lemma_base_live_done_origins_nonempty(cid: u64, s: BaseLiveStateV, resp: Response)
    ensures
        base_live_step(cid, s, resp).1 matches OutcomeV::Done(p) ==> p.raws.len() == 1
            && p.raws[0].tracks.len() >= 1,
{
}

pub open spec fn live_state_ok(s: LiveStateV) -> bool {
    s matches LiveStateV::TitleFetch { origins, .. } ==> forall|i: int|
        0 <= i < origins.len() ==> (#[trigger] origins[i]).tracks.len() >= 1
}

/// Every origin a finished live resolution reports holds at least one
/// track.
pub proof fn lemma_live_done_origins_nonempty(id: u64, s: LiveStateV, resp: Response)
    requires
        live_state_ok(s),
    ensures
        ({
            let (s2, out) = live_step(id, s, resp);
            live_state_ok(s2) && (out matches OutcomeV::Done(p) ==> forall|i: int|
                0 <= i < p.raws.len() ==> (#[trigger] p.raws[i]).tracks.len() >= 1)
        }),
{
    match s {
        LiveStateV::Stream { cid, uid, base } => {
            lemma_base_live_done_origins_nonempty(cid, base, resp);
        },
        _ => {},
    }
}

} // verus!
