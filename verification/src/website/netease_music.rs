//! The music platform's resolvers: single songs and playlists.
use vstd::prelude::*;
use vstd::string::*;
use crate::client::Client;
use crate::error::{Error, ErrorV};
use crate::json::{Json, arr_spec, at_j, get_j, i64_spec, str_spec, u64_spec};
use crate::text::{dec_str, parse_u64, parse_u64_spec, str_strip_all_prefix, str_strip_all_suffix,
    strip_all_prefix, strip_all_suffix, u64_to_string};
use crate::{
    Origin, OriginV, Outcome, OutcomeV, Playlist, PlaylistV, Request, RequestV, Response, Track,
    TrackV,
};

verus! {

pub open spec fn ids_form_val(id: u64) -> Seq<char> {
    "["@ + dec_str(id as nat) + "]"@
}

/// The form of the stream-URL lookup: the bracketed id list and the
/// fixed bitrate cap.
pub open spec fn song_url_form(id: u64) -> Seq<(Seq<char>, Seq<char>)> {
    seq![("ids"@, ids_form_val(id)), ("br"@, "999000"@)]
}

pub open spec fn song_detail_form(id: u64) -> Seq<(Seq<char>, Seq<char>)> {
    seq![("ids"@, ids_form_val(id))]
}

pub open spec fn playlist_detail_url_spec(id: u64) -> Seq<char> {
    "https://music.163.com/api/v3/playlist/detail"@ + "?id="@ + dec_str(id as nat)
}

/// What a stream-URL response resolves to: the URL string when present;
/// the platform's permission refusal when the entry carries its
/// tier-gate code; an unrecognized shape otherwise.
pub open spec fn song_url_result(j: Json) -> Result<Seq<char>, ErrorV> {
    match str_spec(get_j(at_j(get_j(j, "data"@), 0), "url"@)) {
        Some(u) => Ok(u),
        None => if i64_spec(get_j(at_j(get_j(j, "data"@), 0), "code"@)) == Some(-110i64) {
            Err(ErrorV::PermissionDenied { resp: j })
        } else {
            Err(ErrorV::InvalidResponse { resp: j })
        },
    }
}

/// The artist entries that are plain strings, in order.
pub open spec fn artists_names(items: Seq<Json>) -> Seq<Seq<char>>
    decreases items.len(),
{
    if items.len() == 0 {
        Seq::empty()
    } else {
        artists_names(items.drop_last()) + match str_spec(items.last()) {
            Some(s) => seq![s],
            None => Seq::<Seq<char>>::empty(),
        }
    }
}

pub open spec fn join_comma(parts: Seq<Seq<char>>) -> Seq<char>
    decreases parts.len(),
{
    if parts.len() == 0 {
        Seq::empty()
    } else if parts.len() == 1 {
        parts[0]
    } else {
        join_comma(parts.drop_last()) + ","@ + parts.last()
    }
}

/// What a song-detail response titles the song: the artist list joined
/// by commas, a separator, and the name; the bare name when no artist
/// entry is a plain string. The title is best-effort: an unusable shape
/// yields the empty title.
pub open spec fn song_title_of(j: Json) -> Seq<char> {
    match str_spec(get_j(at_j(get_j(j, "songs"@), 0), "name"@)) {
        Some(name) => match arr_spec(get_j(at_j(get_j(j, "songs"@), 0), "artists"@)) {
            Some(artists) => {
                let names = artists_names(artists);
                if names.len() == 0 {
                    name
                } else {
                    join_comma(names) + " - "@ + name
                }
            },
            None => Seq::empty(),
        },
        None => Seq::empty(),
    }
}

/// The best-effort song title of a detail response: empty on any
/// failed fetch.
pub open spec fn song_title_resp(resp: Response) -> Seq<char> {
    match resp {
        Response::Json(j) => song_title_of(j),
        _ => Seq::empty(),
    }
}

pub enum SongStateV {
    Idle,
    UrlFetch,
    TitleFetch { url: Seq<char> },
    Finished,
}

pub open spec fn song_state_running(s: SongStateV) -> bool {
    s is UrlFetch || s is TitleFetch
}

/// One transition of the song resolver: the stream-URL lookup yields the
/// track URL, then the detail lookup yields the title, best-effort: a
/// failed or unusable detail response yields the empty title.
pub open spec fn song_step(id: u64, s: SongStateV, resp: Response) -> (SongStateV, OutcomeV) {
    match s {
        SongStateV::UrlFetch => match resp {
            Response::Json(j) => match song_url_result(j) {
                Ok(u) => (
                    SongStateV::TitleFetch { url: u },
                    OutcomeV::Next(RequestV::PostForm {
                        url: "https://music.163.com/api/song/detail"@,
                        form: song_detail_form(id),
                    }),
                ),
                Err(e) => (SongStateV::Finished, OutcomeV::Failed(e)),
            },
            Response::Text(t) => (
                SongStateV::Finished,
                OutcomeV::Failed(ErrorV::InvalidResponse { resp: Json::Str(t) }),
            ),
            Response::Failed => (
                SongStateV::Finished,
                OutcomeV::Failed(ErrorV::Network {
                    url: "https://music.163.com/api/song/enhance/player/url"@,
                }),
            ),
        },
        SongStateV::TitleFetch { url } => (
            SongStateV::Finished,
            OutcomeV::Done(PlaylistV {
                raws: seq![OriginV { tracks: seq![TrackV::Audio(url)], title: Seq::empty() }],
                title: song_title_resp(resp),
            }),
        ),
        _ => (
            SongStateV::Finished,
            OutcomeV::Failed(ErrorV::InvalidResponse { resp: crate::website::bilibili::resp_payload(resp) }),
        ),
    }
}

enum SongState {
    Idle,
    UrlFetch,
    TitleFetch { url: String },
    Finished,
}

spec fn sstate_view(s: SongState) -> SongStateV {
    match s {
        SongState::Idle => SongStateV::Idle,
        SongState::UrlFetch => SongStateV::UrlFetch,
        SongState::TitleFetch { url } => SongStateV::TitleFetch { url: url@ },
        SongState::Finished => SongStateV::Finished,
    }
}

/// Resolves one song URL: stream-URL lookup, then title lookup.
pub struct Song {
    id: u64,
    client: Client,
    state: SongState,
}

pub struct SongV {
    pub id: u64,
    pub client: Seq<(Seq<char>, Seq<char>)>,
    pub state: SongStateV,
}

impl View for Song {
    type V = SongV;

    closed spec fn view(&self) -> SongV {
        SongV { id: self.id, client: self.client@, state: sstate_view(self.state) }
    }
}

/// The song id named by a fragment-routed song URL: the digits of the
/// fragment once its routing prefix and trailing slashes are stripped.
pub open spec fn song_new_spec(parts: crate::urlinfo::UrlPartsV) -> Result<u64, ErrorV> {
    match parts.fragment {
        Some(f) => match parse_u64_spec(
            strip_all_suffix(strip_all_prefix(f, "/song?id="@), "/"@),
        ) {
            Some(id) => Ok(id),
            None => Err(ErrorV::InvalidUrl { url: parts.normalized }),
        },
        None => Err(ErrorV::InvalidUrl { url: parts.normalized }),
    }
}

impl Song {
    pub fn new(s: &str) -> (r: Result<Song, Error>)
        ensures
            match crate::urlinfo::url_parts_of(s@) {
                Some(parts) => match song_new_spec(parts) {
                    Ok(id) => r matches Ok(v) && v@.id == id && v@.state is Idle && v@.client
                        =~= seq![
                        ("user-agent"@, crate::client::UA@),
                        ("referer"@, "https://music.163.com"@),
                    ],
                    Err(e) => r matches Err(x) && x@ == e,
                },
                None => r matches Err(x) && x@ == (ErrorV::ParseUrl { url: s@ }),
            },
    {
        let parts = match crate::urlinfo::parse_url_parts(s) {
            Some(p) => p,
            None => {
                return Err(Error::ParseUrlError { url: String::from_str(s) });
            },
        };
        let frag = match &parts.fragment {
            Some(f) => f,
            None => {
                return Err(Error::InvalidUrl { url: parts.normalized });
            },
        };
        proof {
            reveal_strlit("/song?id=");
            reveal_strlit("/");
        }
        let trimmed = str_strip_all_suffix(str_strip_all_prefix(frag.as_str(), "/song?id="), "/");
        match parse_u64(trimmed) {
            Some(id) => Ok(Self::with_id(id)),
            None => Err(Error::InvalidUrl { url: parts.normalized }),
        }
    }

    pub fn with_id(id: u64) -> (r: Self)
        ensures
            r@.id == id,
            r@.state is Idle,
            r@.client =~= seq![
                ("user-agent"@, crate::client::UA@),
                ("referer"@, "https://music.163.com"@),
            ],
    {
        Self::with_client(Client::with_referer("https://music.163.com"), id)
    }

    pub fn with_client(client: Client, id: u64) -> (r: Self)
        ensures
            r@ == (SongV { id, client: client@, state: SongStateV::Idle }),
    {
        Song { id, client, state: SongState::Idle }
    }

    pub open spec fn running(&self) -> bool {
        song_state_running(self@.state)
    }

    pub fn is_running(&self) -> (r: bool)
        ensures
            r == self.running(),
    {
        match self.state {
            SongState::UrlFetch => true,
            SongState::TitleFetch { .. } => true,
            _ => false,
        }
    }

    pub fn client(&self) -> (r: &Client)
        ensures
            r@ == self@.client,
    {
        &self.client
    }

    pub fn set_client(&mut self, client: Client)
        ensures
            final(self)@ == (SongV { client: client@, ..old(self)@ }),
    {
        self.client = client;
    }

    /// Begin (or begin again): the first request is the stream-URL lookup.
    pub fn start(&mut self) -> (r: Request)
        ensures
            final(self)@ == (SongV { state: SongStateV::UrlFetch, ..old(self)@ }),
            r@ == (RequestV::PostForm {
                url: "https://music.163.com/api/song/enhance/player/url"@,
                form: song_url_form(old(self)@.id),
            }),
    {
        self.state = SongState::UrlFetch;
        song_url_request(self.id)
    }

    /// Consume one response and move one step, as `song_step` says.
    pub fn on_response(&mut self, resp: Response) -> (r: Outcome)
        requires
            old(self).running(),
        ensures
            ({
                let (s2, out) = song_step(old(self)@.id, old(self)@.state, resp);
                final(self)@ == (SongV { state: s2, ..old(self)@ }) && r@ == out
            }),
    {
        let mut st = SongState::Finished;
        core::mem::swap(&mut st, &mut self.state);
        match st {
            SongState::UrlFetch => match resp {
                Response::Json(j) => match parse_song_url(j) {
                    Ok(url) => {
                        self.state = SongState::TitleFetch { url };
                        let mut form: Vec<(String, String)> = Vec::new();
                        form.push((String::from_str("ids"), ids_form(self.id)));
                        let req = Request::PostForm {
                            url: String::from_str("https://music.163.com/api/song/detail"),
                            form,
                        };
                        proof {
                            assert(req@ matches RequestV::PostForm { url, form }
                                && form =~= song_detail_form(old(self)@.id));
                        }
                        Outcome::Next(req)
                    },
                    Err(e) => Outcome::Failed(e),
                },
                Response::Text(t) => Outcome::Failed(
                    Error::InvalidResponse { resp: Json::Str(t) },
                ),
                Response::Failed => Outcome::Failed(
                    Error::NetworkError {
                        url: String::from_str("https://music.163.com/api/song/enhance/player/url"),
                    },
                ),
            },
            SongState::TitleFetch { url } => {
                let title: String = match resp {
                    Response::Json(j) => parse_song_title(&j),
                    _ => String::new(),
                };
                let origin = Origin::audio(url, String::new());
                let p = Playlist::new(vec![origin], title);
                proof {
                    assert(p@.raws =~= seq![
                        OriginV {
                            tracks: seq![TrackV::Audio(old(self)@.state->TitleFetch_url)],
                            title: Seq::empty(),
                        },
                    ]);
                }
                Outcome::Done(p)
            },
            _ => Outcome::Failed(
                Error::InvalidResponse {
                    resp: match resp {
                        Response::Json(j) => j,
                        Response::Text(t) => Json::Str(t),
                        Response::Failed => Json::Null,
                    },
                },
            ),
        }
    }
}

fn ids_form(id: u64) -> (r: String)
    ensures
        r@ == ids_form_val(id),
{
    let mut s = String::from_str("[");
    s.append(u64_to_string(id).as_str());
    s.append("]");
    s
}

fn song_url_request(id: u64) -> (r: Request)
    ensures
        r@ == (RequestV::PostForm {
            url: "https://music.163.com/api/song/enhance/player/url"@,
            form: song_url_form(id),
        }),
{
    let mut form: Vec<(String, String)> = Vec::new();
    form.push((String::from_str("ids"), ids_form(id)));
    form.push((String::from_str("br"), String::from_str("999000")));
    let r = Request::PostForm {
        url: String::from_str("https://music.163.com/api/song/enhance/player/url"),
        form,
    };
    proof {
        assert(r@ matches RequestV::PostForm { url, form } && form =~= song_url_form(id));
    }
    r
}

/// Read one stream-URL response, as `song_url_result` says.
fn parse_song_url(j: Json) -> (r: Result<String, Error>)
    ensures
        match song_url_result(j) {
            Ok(u) => r matches Ok(s) && s@ == u,
            Err(e) => r matches Err(x) && x@ == e,
        },
{
    let url: Option<String> = match j.get("data") {
        Some(d) => match d.at(0) {
            Some(first) => match first.get("url") {
                Some(u) => match u.str_of() {
                    Some(s) => Some(s.clone()),
                    None => None,
                },
                None => None,
            },
            None => None,
        },
        None => None,
    };
    match url {
        Some(u) => Ok(u),
        None => {
            let code: Option<i64> = match j.get("data") {
                Some(d) => match d.at(0) {
                    Some(first) => match first.get("code") {
                        Some(c) => c.i64_of(),
                        None => None,
                    },
                    None => None,
                },
                None => None,
            };
            let vip = match code {
                Some(c) => c == -110i64,
                None => false,
            };
            if vip {
                Err(Error::PermissionDenied { resp: j })
            } else {
                Err(Error::InvalidResponse { resp: j })
            }
        },
    }
}

/// Read one detail response's title, as `song_title_of` says.
fn parse_song_title(j: &Json) -> (r: String)
    ensures
        r@ == song_title_of(*j),
{
    let song: Option<&Json> = match j.get("songs") {
        Some(d) => d.at(0),
        None => None,
    };
    let name: Option<&String> = match song {
        Some(sj) => match sj.get("name") {
            Some(n) => n.str_of(),
            None => None,
        },
        None => None,
    };
    let name: String = match name {
        Some(n) => n.clone(),
        None => {
            return String::new();
        },
    };
    let artists: Option<&Vec<Json>> = match song {
        Some(sj) => match sj.get("artists") {
            Some(a) => a.arr_of(),
            None => None,
        },
        None => None,
    };
    let artists = match artists {
        Some(a) => a,
        None => {
            return String::new();
        },
    };
    let ghost names = artists_names(artists@);
    let n = artists.len();
    let mut joined = String::new();
    let mut found: usize = 0;
    let mut i: usize = 0;
    while i < n
        invariant
            n == artists@.len(),
            0 <= i <= n,
            found <= i,
            found == artists_names(artists@.take(i as int)).len(),
            joined@ == join_comma(artists_names(artists@.take(i as int))),
        decreases n - i,
    {
        let entry = &artists[i];
        match entry.str_of() {
            Some(s) => {
                if found > 0 {
                    joined.append(",");
                }
                joined.append(s.as_str());
                proof {
                    let pre = artists_names(artists@.take(i as int));
                    assert(artists@.take(i + 1).drop_last() =~= artists@.take(i as int));
                    assert(artists_names(artists@.take(i + 1)) =~= pre.push(s@));
                    assert(pre.push(s@).drop_last() =~= pre);
                    if pre.len() > 0 {
                        assert(join_comma(pre.push(s@)) == join_comma(pre) + ","@ + s@);
                    }
                }
                found = found + 1;
            },
            None => {
                proof {
                    assert(artists@.take(i + 1).drop_last() =~= artists@.take(i as int));
                    assert(artists_names(artists@.take(i + 1)) =~= artists_names(
                        artists@.take(i as int),
                    ));
                }
            },
        }
        i = i + 1;
    }
    proof {
        assert(artists@.take(n as int) =~= artists@);
    }
    if found == 0 {
        name
    } else {
        joined.append(" - ");
        joined.append(name.as_str());
        joined
    }
}

// ---------------------------------------------------------------------
// Playlist resolver: one detail lookup, then one stream-URL lookup per
// member, with permission-refused members skipped
// ---------------------------------------------------------------------

/// The member ids listed by a detail response, in order, entries
/// without a numeric id silently skipped.
pub open spec fn track_ids_of(entries: Seq<Json>) -> Seq<u64>
    decreases entries.len(),
{
    if entries.len() == 0 {
        Seq::empty()
    } else {
        track_ids_of(entries.drop_last()) + match u64_spec(get_j(entries.last(), "id"@)) {
            Some(id) => seq![id],
            None => Seq::<u64>::empty(),
        }
    }
}

pub open spec fn playlist_name_of(j: Json) -> Seq<char> {
    match str_spec(get_j(get_j(j, "playlist"@), "name"@)) {
        Some(n) => n,
        None => Seq::empty(),
    }
}

/// One member's result, read from the response to its stream-URL lookup.
pub open spec fn member_result(resp: Response) -> Result<Seq<char>, ErrorV> {
    match resp {
        Response::Json(j) => song_url_result(j),
        Response::Text(t) => Err(ErrorV::InvalidResponse { resp: Json::Str(t) }),
        Response::Failed => Err(ErrorV::Network {
            url: "https://music.163.com/api/song/enhance/player/url"@,
        }),
    }
}

/// Fold one member result into the collection state: a resolved URL
/// appends one untitled audio origin; a permission refusal is skipped
/// when the resolver ignores tier-gated members; any other failure is
/// collected.
pub open spec fn apply_member(
    origins: Seq<OriginV>,
    failures: Seq<ErrorV>,
    r: Result<Seq<char>, ErrorV>,
    ignore_vip: bool,
) -> (Seq<OriginV>, Seq<ErrorV>) {
    match r {
        Ok(u) => (
            origins.push(OriginV { tracks: seq![TrackV::Audio(u)], title: Seq::empty() }),
            failures,
        ),
        Err(e) => if ignore_vip && e matches ErrorV::PermissionDenied { .. } {
            (origins, failures)
        } else {
            (origins, failures.push(e))
        },
    }
}

/// How a finished collection reports: its origins when no failure was
/// collected; the single failure alone; several failures aggregated.
pub open spec fn finish_outcome(
    origins: Seq<OriginV>,
    failures: Seq<ErrorV>,
    name: Seq<char>,
) -> OutcomeV {
    if failures.len() == 0 {
        OutcomeV::Done(PlaylistV { raws: origins, title: name })
    } else if failures.len() == 1 {
        OutcomeV::Failed(failures[0])
    } else {
        OutcomeV::Failed(ErrorV::Aggregate { errors: failures })
    }
}

pub enum PlayListStateV {
    Idle,
    Detail,
    Members { name: Seq<char>, ids: Seq<u64>, k: nat, origins: Seq<OriginV>, failures: Seq<ErrorV> },
    Finished,
}

pub open spec fn playlist_state_running(s: PlayListStateV) -> bool {
    s is Detail || s is Members
}

/// One transition of the playlist resolver: the detail response yields
/// the member ids and the title; each further response settles one
/// member, in order; the last member settles the whole collection.
pub open spec fn playlist_step(id: u64, ignore_vip: bool, s: PlayListStateV, resp: Response) -> (
    PlayListStateV,
    OutcomeV,
) {
    match s {
        PlayListStateV::Detail => match resp {
            Response::Json(j) => match arr_spec(get_j(get_j(j, "playlist"@), "trackIds"@)) {
                Some(entries) => {
                    let ids = track_ids_of(entries);
                    let name = playlist_name_of(j);
                    if ids.len() == 0 {
                        (
                            PlayListStateV::Finished,
                            OutcomeV::Done(PlaylistV { raws: Seq::empty(), title: name }),
                        )
                    } else {
                        (
                            PlayListStateV::Members {
                                name,
                                ids,
                                k: 0,
                                origins: Seq::empty(),
                                failures: Seq::empty(),
                            },
                            OutcomeV::Next(RequestV::PostForm {
                                url: "https://music.163.com/api/song/enhance/player/url"@,
                                form: song_url_form(ids[0]),
                            }),
                        )
                    }
                },
                None => (
                    PlayListStateV::Finished,
                    OutcomeV::Failed(ErrorV::InvalidResponse { resp: j }),
                ),
            },
            Response::Text(t) => (
                PlayListStateV::Finished,
                OutcomeV::Failed(ErrorV::InvalidResponse { resp: Json::Str(t) }),
            ),
            Response::Failed => (
                PlayListStateV::Finished,
                OutcomeV::Failed(ErrorV::Network { url: playlist_detail_url_spec(id) }),
            ),
        },
        PlayListStateV::Members { name, ids, k, origins, failures } => {
            let (o2, f2) = apply_member(origins, failures, member_result(resp), ignore_vip);
            if k + 1 < ids.len() {
                (
                    PlayListStateV::Members { name, ids, k: k + 1, origins: o2, failures: f2 },
                    OutcomeV::Next(RequestV::PostForm {
                        url: "https://music.163.com/api/song/enhance/player/url"@,
                        form: song_url_form(ids[k + 1int]),
                    }),
                )
            } else {
                (PlayListStateV::Finished, finish_outcome(o2, f2, name))
            }
        },
        _ => (
            PlayListStateV::Finished,
            OutcomeV::Failed(ErrorV::InvalidResponse {
                resp: crate::website::bilibili::resp_payload(resp),
            }),
        ),
    }
}

enum PlayListState {
    Idle,
    Detail,
    Members { name: String, ids: Vec<u64>, k: usize, origins: Vec<Origin>, failures: Vec<Error> },
    Finished,
}

spec fn plstate_view(s: PlayListState) -> PlayListStateV {
    match s {
        PlayListState::Idle => PlayListStateV::Idle,
        PlayListState::Detail => PlayListStateV::Detail,
        PlayListState::Members { name, ids, k, origins, failures } => PlayListStateV::Members {
            name: name@,
            ids: ids@,
            k: k as nat,
            origins: crate::origins_view(origins@),
            failures: crate::error::errs_view(failures@),
        },
        PlayListState::Finished => PlayListStateV::Finished,
    }
}

/// Resolves one playlist URL: the detail lookup lists the members, then
/// each member's stream URL is looked up in member order.
pub struct PlayList {
    id: u64,
    client: Client,
    ignore_vip: bool,
    state: PlayListState,
}

pub struct PlayListV {
    pub id: u64,
    pub ignore_vip: bool,
    pub client: Seq<(Seq<char>, Seq<char>)>,
    pub state: PlayListStateV,
}

impl View for PlayList {
    type V = PlayListV;

    closed spec fn view(&self) -> PlayListV {
        PlayListV {
            id: self.id,
            ignore_vip: self.ignore_vip,
            client: self.client@,
            state: plstate_view(self.state),
        }
    }
}

/// The playlist id named by a fragment-routed playlist URL.
pub open spec fn playlist_new_spec(parts: crate::urlinfo::UrlPartsV) -> Result<u64, ErrorV> {
    match parts.fragment {
        Some(f) => match parse_u64_spec(
            strip_all_suffix(strip_all_prefix(f, "/playlist?id="@), "/"@),
        ) {
            Some(id) => Ok(id),
            None => Err(ErrorV::InvalidUrl { url: parts.normalized }),
        },
        None => Err(ErrorV::InvalidUrl { url: parts.normalized }),
    }
}

impl PlayList {
    pub fn new(s: &str) -> (r: Result<PlayList, Error>)
        ensures
            match crate::urlinfo::url_parts_of(s@) {
                Some(parts) => match playlist_new_spec(parts) {
                    Ok(id) => r matches Ok(v) && v@.id == id && v@.ignore_vip && v@.state is Idle
                        && v@.client =~= seq![
                        ("user-agent"@, crate::client::UA@),
                        ("referer"@, "https://music.163.com"@),
                    ],
                    Err(e) => r matches Err(x) && x@ == e,
                },
                None => r matches Err(x) && x@ == (ErrorV::ParseUrl { url: s@ }),
            },
    {
        let parts = match crate::urlinfo::parse_url_parts(s) {
            Some(p) => p,
            None => {
                return Err(Error::ParseUrlError { url: String::from_str(s) });
            },
        };
        let frag = match &parts.fragment {
            Some(f) => f,
            None => {
                return Err(Error::InvalidUrl { url: parts.normalized });
            },
        };
        proof {
            reveal_strlit("/playlist?id=");
            reveal_strlit("/");
        }
        let trimmed = str_strip_all_suffix(
            str_strip_all_prefix(frag.as_str(), "/playlist?id="),
            "/",
        );
        match parse_u64(trimmed) {
            Some(id) => Ok(Self::with_id(id)),
            None => Err(Error::InvalidUrl { url: parts.normalized }),
        }
    }

    /// A playlist resolver that skips tier-gated members.
    pub fn with_id(id: u64) -> (r: Self)
        ensures
            r@.id == id,
            r@.ignore_vip,
            r@.state is Idle,
            r@.client =~= seq![
                ("user-agent"@, crate::client::UA@),
                ("referer"@, "https://music.163.com"@),
            ],
    {
        Self::extracts_vip(id, false)
    }

    /// `vip` asks for tier-gated members too: their refusals then fail
    /// the collection instead of being skipped.
    pub fn extracts_vip(id: u64, vip: bool) -> (r: Self)
        ensures
            r@.id == id,
            r@.ignore_vip == !vip,
            r@.state is Idle,
            r@.client =~= seq![
                ("user-agent"@, crate::client::UA@),
                ("referer"@, "https://music.163.com"@),
            ],
    {
        Self::with_client(Client::with_referer("https://music.163.com"), id, vip)
    }

    pub fn with_client(client: Client, id: u64, vip: bool) -> (r: Self)
        ensures
            r@ == (PlayListV {
                id,
                ignore_vip: !vip,
                client: client@,
                state: PlayListStateV::Idle,
            }),
            r.wf(),
    {
        PlayList { id, client, ignore_vip: !vip, state: PlayListState::Idle }
    }

    pub open spec fn running(&self) -> bool {
        playlist_state_running(self@.state)
    }

    /// The member cursor always points into the member list.
    pub open spec fn wf(&self) -> bool {
        self@.state matches PlayListStateV::Members { ids, k, .. } ==> k < ids.len()
    }

    pub fn is_running(&self) -> (r: bool)
        ensures
            r == self.running(),
    {
        match &self.state {
            PlayListState::Detail => true,
            PlayListState::Members { .. } => true,
            _ => false,
        }
    }

    pub fn client(&self) -> (r: &Client)
        ensures
            r@ == self@.client,
    {
        &self.client
    }

    pub fn set_client(&mut self, client: Client)
        ensures
            final(self)@ == (PlayListV { client: client@, ..old(self)@ }),
    {
        self.client = client;
    }

    /// Begin (or begin again): the first request is the detail lookup.
    pub fn start(&mut self) -> (r: Request)
        ensures
            final(self)@ == (PlayListV { state: PlayListStateV::Detail, ..old(self)@ }),
            final(self).wf(),
            r@ == (RequestV::Post { url: playlist_detail_url_spec(old(self)@.id) }),
    {
        self.state = PlayListState::Detail;
        let mut s = String::from_str("https://music.163.com/api/v3/playlist/detail");
        s.append("?id=");
        s.append(u64_to_string(self.id).as_str());
        Request::Post { url: s }
    }

    /// Consume one response and move one step, as `playlist_step` says.
    pub fn on_response(&mut self, resp: Response) -> (r: Outcome)
        requires
            old(self).running(),
            old(self).wf(),
        ensures
            ({
                let (s2, out) = playlist_step(
                    old(self)@.id,
                    old(self)@.ignore_vip,
                    old(self)@.state,
                    resp,
                );
                final(self)@ == (PlayListV { state: s2, ..old(self)@ }) && r@ == out
            }),
            final(self).wf(),
    {
        let mut st = PlayListState::Finished;
        core::mem::swap(&mut st, &mut self.state);
        match st {
            PlayListState::Detail => match resp {
                Response::Json(j) => {
                    let entries: Option<&Vec<Json>> = match j.get("playlist") {
                        Some(p) => match p.get("trackIds") {
                            Some(t) => t.arr_of(),
                            None => None,
                        },
                        None => None,
                    };
                    let entries = match entries {
                        Some(e) => e,
                        None => {
                            return Outcome::Failed(Error::InvalidResponse { resp: j });
                        },
                    };
                    let ids = collect_track_ids(entries);
                    let name: String = match j.get("playlist") {
                        Some(p) => match p.get("name") {
                            Some(n) => match n.str_of() {
                                Some(s) => s.clone(),
                                None => String::new(),
                            },
                            None => String::new(),
                        },
                        None => String::new(),
                    };
                    if ids.len() == 0 {
                        let p = Playlist::new(Vec::new(), name);
                        proof {
                            assert(p@.raws =~= Seq::<OriginV>::empty());
                        }
                        Outcome::Done(p)
                    } else {
                        let first = ids[0];
                        self.state = PlayListState::Members {
                            name,
                            ids,
                            k: 0,
                            origins: Vec::new(),
                            failures: Vec::new(),
                        };
                        proof {
                            assert(self@.state->Members_origins =~= Seq::<OriginV>::empty());
                            assert(self@.state->Members_failures =~= Seq::<ErrorV>::empty());
                        }
                        Outcome::Next(song_url_request(first))
                    }
                },
                Response::Text(t) => Outcome::Failed(
                    Error::InvalidResponse { resp: Json::Str(t) },
                ),
                Response::Failed => {
                    let mut s = String::from_str("https://music.163.com/api/v3/playlist/detail");
                    s.append("?id=");
                    s.append(u64_to_string(self.id).as_str());
                    Outcome::Failed(Error::NetworkError { url: s })
                },
            },
            PlayListState::Members { name, ids, k, mut origins, mut failures } => {
                let ghost origins0 = origins@;
                let ghost failures0 = failures@;
                match resp {
                    Response::Json(j) => match parse_song_url(j) {
                        Ok(u) => {
                            let origin = Origin::audio(u, String::new());
                            origins.push(origin);
                            proof {
                                lemma_origin_push(origins0, origins@.last());
                            }
                        },
                        Err(e) => {
                            let skip = self.ignore_vip && e.is_permission_denied();
                            if !skip {
                                failures.push(e);
                                proof {
                                    lemma_errs_push(failures0, failures@.last());
                                }
                            }
                        },
                    },
                    Response::Text(t) => {
                        let e = Error::InvalidResponse { resp: Json::Str(t) };
                        failures.push(e);
                        proof {
                            lemma_errs_push(failures0, failures@.last());
                        }
                    },
                    Response::Failed => {
                        let e = Error::NetworkError {
                            url: String::from_str(
                                "https://music.163.com/api/song/enhance/player/url",
                            ),
                        };
                        failures.push(e);
                        proof {
                            lemma_errs_push(failures0, failures@.last());
                        }
                    },
                }
                proof {
                    crate::error::lemma_errs_view_index(failures@);
                    assert(k < ids@.len());
                }
                let n = ids.len();
                if k + 1 < n {
                    let next = ids[k + 1];
                    self.state = PlayListState::Members { name, ids, k: k + 1, origins, failures };
                    Outcome::Next(song_url_request(next))
                } else {
                    if failures.len() == 0 {
                        proof {
                            assert(crate::error::errs_view(failures@) =~= Seq::<ErrorV>::empty());
                        }
                        let p = Playlist::new(origins, name);
                        Outcome::Done(p)
                    } else if failures.len() == 1 {
                        let ghost pre = failures@;
                        let e = match failures.pop() {
                            Some(e) => e,
                            None => Error::InvalidResponse { resp: Json::Null },
                        };
                        proof {
                            assert(crate::error::errs_view(pre)[0] == pre[0]@);
                        }
                        Outcome::Failed(e)
                    } else {
                        Outcome::Failed(Error::AggregateFailure { errors: failures })
                    }
                }
            },
            _ => Outcome::Failed(
                Error::InvalidResponse {
                    resp: match resp {
                        Response::Json(j) => j,
                        Response::Text(t) => Json::Str(t),
                        Response::Failed => Json::Null,
                    },
                },
            ),
        }
    }
}

proof fn lemma_origin_push(pre: Seq<Origin>, x: Origin)
    ensures
        crate::origins_view(pre.push(x)) =~= crate::origins_view(pre).push(x@),
{
    assert forall|j: int| 0 <= j < pre.len() + 1 implies #[trigger] crate::origins_view(
        pre.push(x),
    )[j] == crate::origins_view(pre).push(x@)[j] by {
        if j < pre.len() {
            assert(pre.push(x)[j] == pre[j]);
        } else {
            assert(pre.push(x)[j] == x);
        }
    }
}

proof fn lemma_errs_push(pre: Seq<Error>, x: Error)
    ensures
        crate::error::errs_view(pre.push(x)) =~= crate::error::errs_view(pre).push(x@),
{
    crate::error::lemma_errs_view_index(pre.push(x));
    crate::error::lemma_errs_view_index(pre);
    assert forall|j: int| 0 <= j < pre.len() + 1 implies crate::error::errs_view(pre.push(x))[j]
        == crate::error::errs_view(pre).push(x@)[j] by {
        if j < pre.len() {
            assert(pre.push(x)[j] == pre[j]);
        } else {
            assert(pre.push(x)[j] == x);
        }
    }
}

fn collect_track_ids(entries: &Vec<Json>) -> (r: Vec<u64>)
    ensures
        r@ =~= track_ids_of(entries@),
{
    let n = entries.len();
    let mut ids: Vec<u64> = Vec::new();
    let mut i: usize = 0;
    while i < n
        invariant
            n == entries@.len(),
            0 <= i <= n,
            ids@ =~= track_ids_of(entries@.take(i as int)),
        decreases n - i,
    {
        let entry = &entries[i];
        match entry.get("id") {
            Some(v) => match v.u64_of() {
                Some(id) => {
                    ids.push(id);
                },
                None => {},
            },
            None => {},
        }
        proof {
            assert(entries@.take(i + 1).drop_last() =~= entries@.take(i as int));
            assert(entries@.take(i + 1).last() == entries@[i as int]);
        }
        i = i + 1;
    }
    proof {
        assert(entries@.take(n as int) =~= entries@);
    }
    ids
}

// ---------------------------------------------------------------------
// Laws of member aggregation
// ---------------------------------------------------------------------

/// Folding a whole sequence of member results, member by member.
pub open spec fn members_fold(
    results: Seq<Result<Seq<char>, ErrorV>>,
    ignore_vip: bool,
) -> (Seq<OriginV>, Seq<ErrorV>)
    decreases results.len(),
{
    if results.len() == 0 {
        (Seq::empty(), Seq::empty())
    } else {
        let (o, f) = members_fold(results.drop_last(), ignore_vip);
        apply_member(o, f, results.last(), ignore_vip)
    }
}

/// The origins of the resolved members, in member order.
pub open spec fn ok_origins(results: Seq<Result<Seq<char>, ErrorV>>) -> Seq<OriginV>
    decreases results.len(),
{
    if results.len() == 0 {
        Seq::empty()
    } else {
        ok_origins(results.drop_last()) + match results.last() {
            Ok(u) => seq![OriginV { tracks: seq![TrackV::Audio(u)], title: Seq::empty() }],
            Err(_) => Seq::<OriginV>::empty(),
        }
    }
}

pub open spec fn count_ok(results: Seq<Result<Seq<char>, ErrorV>>) -> nat
    decreases results.len(),
{
    if results.len() == 0 {
        0
    } else {
        count_ok(results.drop_last()) + if results.last() is Ok {
            1nat
        } else {
            0nat
        }
    }
}

/// Permission-restricted members are excluded, not fatal: when every
/// member either resolves or is refused for permissions, a resolver that
/// skips tier-gated members collects no failure and yields exactly the
/// resolved members' origins, in member order.
pub proof fn lemma_permission_denied_members_skipped(
    results: Seq<Result<Seq<char>, ErrorV>>,
    name: Seq<char>,
)
    requires
        forall|i: int| 0 <= i < results.len() ==> (#[trigger] results[i]) is Ok || results[i]
            matches Err(ErrorV::PermissionDenied { .. }),
    ensures
        members_fold(results, true).0 == ok_origins(results),
        members_fold(results, true).1 =~= Seq::<ErrorV>::empty(),
        ok_origins(results).len() == count_ok(results),
        finish_outcome(members_fold(results, true).0, members_fold(results, true).1, name)
            == OutcomeV::Done(PlaylistV { raws: ok_origins(results), title: name }),
    decreases results.len(),
{
    if results.len() > 0 {
        assert(forall|i: int| 0 <= i < results.drop_last().len() ==> (
        #[trigger] results.drop_last()[i]) is Ok || results.drop_last()[i] matches Err(
            ErrorV::PermissionDenied { .. },
        ));
        lemma_permission_denied_members_skipped(results.drop_last(), name);
        assert(results[results.len() - 1] is Ok || results[results.len() - 1] matches Err(
            ErrorV::PermissionDenied { .. },
        ));
        match results.last() {
            Ok(u) => {
                assert(ok_origins(results) =~= ok_origins(results.drop_last()).push(
                    OriginV { tracks: seq![TrackV::Audio(u)], title: Seq::empty() },
                ));
            },
            Err(_) => {
                assert(ok_origins(results) =~= ok_origins(results.drop_last()));
            },
        }
    }
}

/// The outcome of feeding the playlist resolver a sequence of
/// responses, if it terminates within them.
pub open spec fn playlist_run(
    id: u64,
    ignore_vip: bool,
    s: PlayListStateV,
    resps: Seq<Response>,
) -> Option<OutcomeV>
    decreases resps.len(),
{
    if resps.len() == 0 {
        None
    } else {
        let (s2, out) = playlist_step(id, ignore_vip, s, resps[0]);
        match out {
            OutcomeV::Next(_) => playlist_run(id, ignore_vip, s2, resps.drop_first()),
            _ => Some(out),
        }
    }
}

/// The origins of the members whose responses resolved, in member order.
pub open spec fn resolved_origins(resps: Seq<Response>) -> Seq<OriginV>
    decreases resps.len(),
{
    if resps.len() == 0 {
        Seq::empty()
    } else {
        match member_result(resps[0]) {
            Ok(u) => seq![OriginV { tracks: seq![TrackV::Audio(u)], title: Seq::empty() }]
                + resolved_origins(resps.drop_first()),
            Err(_) => resolved_origins(resps.drop_first()),
        }
    }
}

/// Through the whole member phase, a resolver that skips tier-gated
/// members collects no new failure from members that either resolve or
/// are refused for permissions, and settles with the resolved members'
/// origins appended in member order.
pub proof fn lemma_member_phase_skips_permission_denied(
    id: u64,
    name: Seq<char>,
    ids: Seq<u64>,
    k: nat,
    origins: Seq<OriginV>,
    failures: Seq<ErrorV>,
    resps: Seq<Response>,
)
    requires
        k < ids.len(),
        resps.len() == ids.len() - k,
        forall|i: int| 0 <= i < resps.len() ==> (#[trigger] member_result(resps[i])) is Ok
            || member_result(resps[i]) matches Err(ErrorV::PermissionDenied { .. }),
    ensures
        playlist_run(
            id,
            true,
            PlayListStateV::Members { name, ids, k, origins, failures },
            resps,
        ) == Some(finish_outcome(origins + resolved_origins(resps), failures, name)),
    decreases resps.len(),
{
    let r0 = member_result(resps[0]);
    let (o2, f2) = apply_member(origins, failures, r0, true);
    assert(f2 == failures);
    if k + 1 < ids.len() {
        assert(forall|i: int| 0 <= i < resps.drop_first().len() ==> (#[trigger] member_result(
            resps.drop_first()[i],
        )) is Ok || member_result(resps.drop_first()[i]) matches Err(
            ErrorV::PermissionDenied { .. },
        ));
        lemma_member_phase_skips_permission_denied(
            id,
            name,
            ids,
            k + 1,
            o2,
            f2,
            resps.drop_first(),
        );
        match r0 {
            Ok(u) => {
                assert(origins + resolved_origins(resps) =~= o2 + resolved_origins(
                    resps.drop_first(),
                ));
            },
            Err(_) => {
                assert(origins + resolved_origins(resps) =~= o2 + resolved_origins(
                    resps.drop_first(),
                ));
            },
        }
    } else {
        assert(resps.len() == 1);
        match r0 {
            Ok(u) => {
                assert(resolved_origins(resps.drop_first()) =~= Seq::<OriginV>::empty());
                assert(origins + resolved_origins(resps) =~= o2);
            },
            Err(_) => {
                assert(resolved_origins(resps) =~= Seq::<OriginV>::empty());
                assert(origins + resolved_origins(resps) =~= o2);
            },
        }
        assert(playlist_run(
            id,
            true,
            PlayListStateV::Members { name, ids, k, origins, failures },
            resps,
        ) == Some(finish_outcome(o2, f2, name)));
    }
}

// ---------------------------------------------------------------------
// Laws of origin content and determinism
// ---------------------------------------------------------------------

/// The one origin of a finished song resolution holds one track.
pub proof fn lemma_song_done_origins_nonempty(id: u64, s: SongStateV, resp: Response)
    ensures
        song_step(id, s, resp).1 matches OutcomeV::Done(p) ==> p.raws.len() == 1
            && p.raws[0].tracks.len() >= 1,
{
}

/// The outcome of feeding the song resolver a sequence of responses,
/// if it terminates within them.
pub open spec fn song_run(id: u64, s: SongStateV, resps: Seq<Response>) -> Option<OutcomeV>
    decreases resps.len(),
{
    if resps.len() == 0 {
        None
    } else {
        let (s2, out) = song_step(id, s, resps[0]);
        match out {
            OutcomeV::Next(_) => song_run(id, s2, resps.drop_first()),
            _ => Some(out),
        }
    }
}

/// Idempotence: the song resolver is a function of its inputs; equal
/// identifiers, states and responses resolve to equal outcomes.
pub proof fn lemma_song_resolution_deterministic(
    id1: u64,
    id2: u64,
    s1: SongStateV,
    s2: SongStateV,
    resps1: Seq<Response>,
    resps2: Seq<Response>,
)
    requires
        id1 == id2,
        s1 == s2,
        resps1 == resps2,
    ensures
        song_run(id1, s1, resps1) == song_run(id2, s2, resps2),
{
}

pub open spec fn playlist_state_ok(s: PlayListStateV) -> bool {
    s matches PlayListStateV::Members { origins, .. } ==> forall|i: int|
        0 <= i < origins.len() ==> (#[trigger] origins[i]).tracks.len() >= 1
}

/// Every origin a finished playlist resolution reports holds at least
/// one track.
pub proof fn lemma_playlist_done_origins_nonempty(
    id: u64,
    ignore_vip: bool,
    s: PlayListStateV,
    resp: Response,
)
    requires
        playlist_state_ok(s),
    ensures
        ({
            let (s2, out) = playlist_step(id, ignore_vip, s, resp);
            playlist_state_ok(s2) && (out matches OutcomeV::Done(p) ==> forall|i: int|
                0 <= i < p.raws.len() ==> (#[trigger] p.raws[i]).tracks.len() >= 1)
        }),
{
}

} // verus!
