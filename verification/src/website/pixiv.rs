//! The image platform's resolvers: single posts and bookmark collections.
use vstd::prelude::*;
use vstd::string::*;
use crate::client::Client;
use crate::error::{Error, ErrorV};
use crate::json::{Json, arr_spec, bool_spec, get_j, str_spec, u64_spec};
use crate::text::{dec_str, str_strip_all_suffix, strip_all_suffix, u64_to_string};
use crate::{
    Origin, OriginV, Outcome, OutcomeV, Playlist, PlaylistV, Request, RequestV, Response, Track,
    TrackV, origins_view,
};

verus! {

pub open spec fn illust_meta_url_spec(pid: Seq<char>) -> Seq<char> {
    "https://www.pixiv.net/ajax/illust/"@ + pid
}

pub open spec fn illust_pages_url_spec(pid: Seq<char>) -> Seq<char> {
    "https://www.pixiv.net/ajax/illust/"@ + pid + "/pages"@
}

/// One bookmark page's URL: the fixed filter, the cursor, and the page
/// size of ninety-six members.
pub open spec fn bookmarks_url_spec(uid: Seq<char>, offset: u64) -> Seq<char> {
    "https://www.pixiv.net/ajax/user/"@ + uid + "/illusts/bookmarks"@ + "?tag=&offset="@ + dec_str(
        offset as nat,
    ) + "&limit=96&rest=show"@
}

pub open spec fn page_url_of(e: Json) -> Seq<char> {
    match str_spec(get_j(get_j(e, "urls"@), "original"@)) {
        Some(u) => u,
        None => Seq::empty(),
    }
}

pub open spec fn pages_all_ok(items: Seq<Json>) -> bool {
    forall|i: int| 0 <= i < items.len() ==> str_spec(
        get_j(get_j(#[trigger] items[i], "urls"@), "original"@),
    ) is Some
}

/// The image tracks of a pages response, in source order.
pub open spec fn pages_tracks_of(items: Seq<Json>) -> Seq<TrackV> {
    Seq::new(items.len(), |i: int| TrackV::Image(page_url_of(items[i])))
}

/// Whether a response is the platform's explicit refusal of the item:
/// an error body in place of the content.
pub open spec fn error_marked(j: Json) -> bool {
    bool_spec(get_j(j, "error"@)) == Some(true)
}

pub enum PixivStateV {
    Idle,
    Meta,
    Pages { title: Seq<char> },
    Finished,
}

pub open spec fn pixiv_state_running(s: PixivStateV) -> bool {
    s is Meta || s is Pages
}

/// One transition of the single-post resolver: the metadata lookup
/// yields the title — or the platform's refusal of a restricted item —
/// then the pages lookup yields one image track per entry, all in one
/// origin labelled with the title. An empty pages body is an
/// unrecognized shape: an origin always holds a track.
pub open spec fn pixiv_step(pid: Seq<char>, s: PixivStateV, resp: Response) -> (
    PixivStateV,
    OutcomeV,
) {
    match s {
        PixivStateV::Meta => match resp {
            Response::Json(j) => match str_spec(get_j(get_j(j, "body"@), "title"@)) {
                Some(t) => (
                    PixivStateV::Pages { title: t },
                    OutcomeV::Next(RequestV::Get { url: illust_pages_url_spec(pid) }),
                ),
                None => if error_marked(j) {
                    (
                        PixivStateV::Finished,
                        OutcomeV::Failed(ErrorV::PermissionDenied { resp: j }),
                    )
                } else {
                    (
                        PixivStateV::Finished,
                        OutcomeV::Failed(ErrorV::InvalidResponse { resp: j }),
                    )
                },
            },
            Response::Text(t) => (
                PixivStateV::Finished,
                OutcomeV::Failed(ErrorV::InvalidResponse { resp: Json::Str(t) }),
            ),
            Response::Failed => (
                PixivStateV::Finished,
                OutcomeV::Failed(ErrorV::Network { url: illust_meta_url_spec(pid) }),
            ),
        },
        PixivStateV::Pages { title } => match resp {
            Response::Json(j) => match arr_spec(get_j(j, "body"@)) {
                Some(items) => if items.len() > 0 && pages_all_ok(items) {
                    (
                        PixivStateV::Finished,
                        OutcomeV::Done(PlaylistV {
                            raws: seq![OriginV { tracks: pages_tracks_of(items), title: title }],
                            title: title,
                        }),
                    )
                } else {
                    (
                        PixivStateV::Finished,
                        OutcomeV::Failed(ErrorV::InvalidResponse { resp: j }),
                    )
                },
                None => (
                    PixivStateV::Finished,
                    OutcomeV::Failed(ErrorV::InvalidResponse { resp: j }),
                ),
            },
            Response::Text(t) => (
                PixivStateV::Finished,
                OutcomeV::Failed(ErrorV::InvalidResponse { resp: Json::Str(t) }),
            ),
            Response::Failed => (
                PixivStateV::Finished,
                OutcomeV::Failed(ErrorV::Network { url: illust_pages_url_spec(pid) }),
            ),
        },
        _ => (
            PixivStateV::Finished,
            OutcomeV::Failed(ErrorV::InvalidResponse {
                resp: crate::website::bilibili::resp_payload(resp),
            }),
        ),
    }
}

enum PixivState {
    Idle,
    Meta,
    Pages { title: String },
    Finished,
}

spec fn pxstate_view(s: PixivState) -> PixivStateV {
    match s {
        PixivState::Idle => PixivStateV::Idle,
        PixivState::Meta => PixivStateV::Meta,
        PixivState::Pages { title } => PixivStateV::Pages { title: title@ },
        PixivState::Finished => PixivStateV::Finished,
    }
}

/// Resolves one image post: metadata lookup, then the pages lookup.
pub struct Pixiv {
    client: Client,
    pid: String,
    state: PixivState,
}

pub struct PixivV {
    pub pid: Seq<char>,
    pub client: Seq<(Seq<char>, Seq<char>)>,
    pub state: PixivStateV,
}

impl View for Pixiv {
    type V = PixivV;

    closed spec fn view(&self) -> PixivV {
        PixivV { pid: self.pid@, client: self.client@, state: pxstate_view(self.state) }
    }
}

/// The post id named by a post URL: its last path segment, after
/// trailing slashes of the input are trimmed.
pub open spec fn pixiv_new_spec(parts: crate::urlinfo::UrlPartsV) -> Result<Seq<char>, ErrorV> {
    if parts.segments.len() > 0 {
        Ok(parts.segments.last())
    } else {
        Err(ErrorV::InvalidUrl { url: parts.normalized })
    }
}

impl Pixiv {
    pub fn new(s: &str) -> (r: Result<Pixiv, Error>)
        ensures
            match crate::urlinfo::url_parts_of(strip_all_suffix(s@, "/"@)) {
                Some(parts) => match pixiv_new_spec(parts) {
                    Ok(pid) => r matches Ok(v) && v@.pid == pid && v@.state is Idle && v@.client
                        =~= seq![
                        ("user-agent"@, crate::client::UA@),
                        ("referer"@, "https://www.pixiv.net/"@),
                    ],
                    Err(e) => r matches Err(x) && x@ == e,
                },
                None => r matches Err(x) && x@ == (ErrorV::ParseUrl {
                    url: strip_all_suffix(s@, "/"@),
                }),
            },
    {
        proof {
            reveal_strlit("/");
        }
        let trimmed = str_strip_all_suffix(s, "/");
        let parts = match crate::urlinfo::parse_url_parts(trimmed) {
            Some(p) => p,
            None => {
                return Err(Error::ParseUrlError { url: String::from_str(trimmed) });
            },
        };
        if parts.segments.len() == 0 {
            return Err(Error::InvalidUrl { url: parts.normalized });
        }
        let pid = parts.segments[parts.segments.len() - 1].clone();
        Ok(Self::with_pid(pid))
    }

    pub fn with_pid(pid: String) -> (r: Self)
        ensures
            r@.pid == pid@,
            r@.state is Idle,
            r@.client =~= seq![
                ("user-agent"@, crate::client::UA@),
                ("referer"@, "https://www.pixiv.net/"@),
            ],
    {
        Self::with_client(Client::with_referer("https://www.pixiv.net/"), pid)
    }

    pub fn with_client(client: Client, pid: String) -> (r: Self)
        ensures
            r@ == (PixivV { pid: pid@, client: client@, state: PixivStateV::Idle }),
    {
        Pixiv { client, pid, state: PixivState::Idle }
    }

    pub open spec fn running(&self) -> bool {
        pixiv_state_running(self@.state)
    }

    pub fn is_running(&self) -> (r: bool)
        ensures
            r == self.running(),
    {
        match self.state {
            PixivState::Meta => true,
            PixivState::Pages { .. } => true,
            _ => false,
        }
    }

    pub fn client(&self) -> (r: &Client)
        ensures
            r@ == self@.client,
    {
        &self.client
    }

    pub fn set_client(&mut self, client: Client)
        ensures
            final(self)@ == (PixivV { client: client@, ..old(self)@ }),
    {
        self.client = client;
    }

    /// Begin (or begin again): the first request is the metadata lookup.
    pub fn start(&mut self) -> (r: Request)
        ensures
            final(self)@ == (PixivV { state: PixivStateV::Meta, ..old(self)@ }),
            r@ == (RequestV::Get { url: illust_meta_url_spec(old(self)@.pid) }),
    {
        self.state = PixivState::Meta;
        let mut s = String::from_str("https://www.pixiv.net/ajax/illust/");
        s.append(self.pid.as_str());
        Request::Get { url: s }
    }

    /// Consume one response and move one step, as `pixiv_step` says.
    pub fn on_response(&mut self, resp: Response) -> (r: Outcome)
        requires
            old(self).running(),
        ensures
            ({
                let (s2, out) = pixiv_step(old(self)@.pid, old(self)@.state, resp);
                final(self)@ == (PixivV { state: s2, ..old(self)@ }) && r@ == out
            }),
    {
        let mut st = PixivState::Finished;
        core::mem::swap(&mut st, &mut self.state);
        match st {
            PixivState::Meta => match resp {
                Response::Json(j) => {
                    let title: Option<&String> = match j.get("body") {
                        Some(b) => match b.get("title") {
                            Some(t) => t.str_of(),
                            None => None,
                        },
                        None => None,
                    };
                    match title {
                        Some(t) => {
                            let title = t.clone();
                            self.state = PixivState::Pages { title };
                            let mut s = String::from_str("https://www.pixiv.net/ajax/illust/");
                            s.append(self.pid.as_str());
                            s.append("/pages");
                            Outcome::Next(Request::Get { url: s })
                        },
                        None => {
                            let marked = match j.get("error") {
                                Some(e) => match e.bool_of() {
                                    Some(b) => b,
                                    None => false,
                                },
                                None => false,
                            };
                            if marked {
                                Outcome::Failed(Error::PermissionDenied { resp: j })
                            } else {
                                Outcome::Failed(Error::InvalidResponse { resp: j })
                            }
                        },
                    }
                },
                Response::Text(t) => Outcome::Failed(
                    Error::InvalidResponse { resp: Json::Str(t) },
                ),
                Response::Failed => {
                    let mut s = String::from_str("https://www.pixiv.net/ajax/illust/");
                    s.append(self.pid.as_str());
                    Outcome::Failed(Error::NetworkError { url: s })
                },
            },
            PixivState::Pages { title } => match resp {
                Response::Json(j) => {
                    let items: Option<&Vec<Json>> = match j.get("body") {
                        Some(b) => b.arr_of(),
                        None => None,
                    };
                    let items = match items {
                        Some(a) => a,
                        None => {
                            return Outcome::Failed(Error::InvalidResponse { resp: j });
                        },
                    };
                    if items.len() == 0 {
                        return Outcome::Failed(Error::InvalidResponse { resp: j });
                    }
                    match collect_page_tracks(items) {
                        Some(tracks) => {
                            let origin = Origin::new(tracks, title.clone());
                            let p = Playlist::new(vec![origin], title);
                            proof {
                                assert(p@.raws =~= seq![
                                    OriginV {
                                        tracks: pages_tracks_of(items@),
                                        title: old(self)@.state->Pages_title,
                                    },
                                ]);
                            }
                            Outcome::Done(p)
                        },
                        None => Outcome::Failed(Error::InvalidResponse { resp: j }),
                    }
                },
                Response::Text(t) => Outcome::Failed(
                    Error::InvalidResponse { resp: Json::Str(t) },
                ),
                Response::Failed => {
                    let mut s = String::from_str("https://www.pixiv.net/ajax/illust/");
                    s.append(self.pid.as_str());
                    s.append("/pages");
                    Outcome::Failed(Error::NetworkError { url: s })
                },
            },
            _ => Outcome::Failed(
                Error::InvalidResponse {
                    resp: match resp {
                        Response::Json(j) => j,
                        Response::Text(t) => Json::Str(t),
                        Response::Failed => Json::Null,
                    },
                },
            ),
        }
    }
}

fn collect_page_tracks(items: &Vec<Json>) -> (r: Option<Vec<Track>>)
    ensures
        if pages_all_ok(items@) {
            r matches Some(v) && v@.map_values(|t: Track| t@) =~= pages_tracks_of(items@)
        } else {
            r is None
        },
{
    let n = items.len();
    let mut tracks: Vec<Track> = Vec::new();
    let mut i: usize = 0;
    while i < n
        invariant
            n == items@.len(),
            0 <= i <= n,
            tracks@.len() == i,
            forall|j: int| 0 <= j < i ==> str_spec(
                get_j(get_j(#[trigger] items@[j], "urls"@), "original"@),
            ) is Some,
            forall|j: int| 0 <= j < i ==> tracks@[j]@ == TrackV::Image(page_url_of(items@[j])),
        decreases n - i,
    {
        let entry = &items[i];
        let url: Option<&String> = match entry.get("urls") {
            Some(u) => match u.get("original") {
                Some(o) => o.str_of(),
                None => None,
            },
            None => None,
        };
        match url {
            Some(u) => {
                tracks.push(Track::Image(u.clone()));
            },
            None => {
                proof {
                    assert(str_spec(get_j(get_j(items@[i as int], "urls"@), "original"@))
                        is None);
                    assert(!pages_all_ok(items@));
                }
                return None;
            },
        }
        i = i + 1;
    }
    proof {
        assert(pages_all_ok(items@));
        assert(tracks@.map_values(|t: Track| t@) =~= pages_tracks_of(items@));
    }
    Some(tracks)
}

// ---------------------------------------------------------------------
// Bookmark-collection resolver: cursor pagination over member pages,
// each member resolved through the single-post resolver
// ---------------------------------------------------------------------

pub open spec fn strs_view(s: Seq<String>) -> Seq<Seq<char>> {
    s.map_values(|x: String| x@)
}

pub open spec fn work_ids_ok(works: Seq<Json>) -> bool {
    forall|i: int| 0 <= i < works.len() ==> str_spec(get_j(#[trigger] works[i], "id"@)) is Some
}

/// The member ids of one bookmark page, in source order.
pub open spec fn work_ids_of(works: Seq<Json>) -> Seq<Seq<char>> {
    Seq::new(
        works.len(),
        |i: int|
            match str_spec(get_j(works[i], "id"@)) {
                Some(id) => id,
                None => Seq::empty(),
            },
    )
}

/// The total the first page reports; missing or non-numeric reads as
/// zero, which stops after that page.
pub open spec fn total_of(j: Json) -> u64 {
    match u64_spec(get_j(get_j(j, "body"@), "total"@)) {
        Some(t) => t,
        None => 0,
    }
}

pub enum ColStateV {
    Idle,
    Page { offset: u64, total: Option<u64>, origins: Seq<OriginV> },
    Member {
        offset: u64,
        total: Option<u64>,
        origins: Seq<OriginV>,
        ids: Seq<Seq<char>>,
        k: nat,
        member: PixivStateV,
    },
    Finished,
}

pub open spec fn col_state_running(s: ColStateV) -> bool {
    match s {
        ColStateV::Page { .. } => true,
        ColStateV::Member { member, .. } => pixiv_state_running(member),
        _ => false,
    }
}

/// After one page is exhausted: stop once the next cursor would reach
/// the reported total (a collection that never reported one stops after
/// its first page); otherwise advance the cursor by one page size.
pub open spec fn advance_spec(
    uid: Seq<char>,
    offset: u64,
    total: Option<u64>,
    origins: Seq<OriginV>,
) -> (ColStateV, OutcomeV) {
    let t: u64 = match total {
        Some(t) => t,
        None => 0,
    };
    if offset as int + 96 >= t as int {
        (
            ColStateV::Finished,
            OutcomeV::Done(PlaylistV { raws: origins, title: Seq::empty() }),
        )
    } else {
        (
            ColStateV::Page { offset: (offset + 96) as u64, total, origins },
            OutcomeV::Next(RequestV::Get { url: bookmarks_url_spec(uid, (offset + 96) as u64) }),
        )
    }
}

/// Move to the next member of the page, or leave the page.
pub open spec fn next_member_spec(
    uid: Seq<char>,
    offset: u64,
    total: Option<u64>,
    origins: Seq<OriginV>,
    ids: Seq<Seq<char>>,
    k: nat,
) -> (ColStateV, OutcomeV) {
    if k + 1 < ids.len() {
        (
            ColStateV::Member { offset, total, origins, ids, k: k + 1, member: PixivStateV::Meta },
            OutcomeV::Next(RequestV::Get { url: illust_meta_url_spec(ids[k + 1int]) }),
        )
    } else {
        advance_spec(uid, offset, total, origins)
    }
}

/// One transition of the collection resolver: a page response yields the
/// member ids, remembering the first page's reported total; each member
/// then runs through the single-post resolver; a member refused for
/// permissions is skipped, any other member failure fails the whole
/// collection; the cursor advances as `advance_spec` says.
pub open spec fn col_step(uid: Seq<char>, s: ColStateV, resp: Response) -> (ColStateV, OutcomeV) {
    match s {
        ColStateV::Page { offset, total, origins } => match resp {
            Response::Json(j) => match arr_spec(get_j(get_j(j, "body"@), "works"@)) {
                Some(works) => if work_ids_ok(works) {
                    let ids = work_ids_of(works);
                    let total2 = match total {
                        Some(t) => Some(t),
                        None => Some(total_of(j)),
                    };
                    if ids.len() == 0 {
                        advance_spec(uid, offset, total2, origins)
                    } else {
                        (
                            ColStateV::Member {
                                offset,
                                total: total2,
                                origins,
                                ids,
                                k: 0,
                                member: PixivStateV::Meta,
                            },
                            OutcomeV::Next(RequestV::Get { url: illust_meta_url_spec(ids[0]) }),
                        )
                    }
                } else {
                    (
                        ColStateV::Finished,
                        OutcomeV::Failed(ErrorV::InvalidResponse { resp: j }),
                    )
                },
                None => (
                    ColStateV::Finished,
                    OutcomeV::Failed(ErrorV::InvalidResponse { resp: j }),
                ),
            },
            Response::Text(t) => (
                ColStateV::Finished,
                OutcomeV::Failed(ErrorV::InvalidResponse { resp: Json::Str(t) }),
            ),
            Response::Failed => (
                ColStateV::Finished,
                OutcomeV::Failed(ErrorV::Network { url: bookmarks_url_spec(uid, offset) }),
            ),
        },
        ColStateV::Member { offset, total, origins, ids, k, member } => {
            let (m2, out) = pixiv_step(ids[k as int], member, resp);
            match out {
                OutcomeV::Next(req) => (
                    ColStateV::Member { offset, total, origins, ids, k, member: m2 },
                    OutcomeV::Next(req),
                ),
                OutcomeV::Done(p) => next_member_spec(uid, offset, total, origins + p.raws, ids, k),
                OutcomeV::Failed(e) => if e matches ErrorV::PermissionDenied { .. } {
                    next_member_spec(uid, offset, total, origins, ids, k)
                } else {
                    (ColStateV::Finished, OutcomeV::Failed(e))
                },
            }
        },
        _ => (
            ColStateV::Finished,
            OutcomeV::Failed(ErrorV::InvalidResponse {
                resp: crate::website::bilibili::resp_payload(resp),
            }),
        ),
    }
}

enum ColState {
    Idle,
    Page { offset: u64, total: Option<u64>, origins: Vec<Origin> },
    Member {
        offset: u64,
        total: Option<u64>,
        origins: Vec<Origin>,
        ids: Vec<String>,
        k: usize,
        member: Pixiv,
    },
    Finished,
}

spec fn cstate_view(s: ColState) -> ColStateV {
    match s {
        ColState::Idle => ColStateV::Idle,
        ColState::Page { offset, total, origins } => ColStateV::Page {
            offset,
            total,
            origins: origins_view(origins@),
        },
        ColState::Member { offset, total, origins, ids, k, member } => ColStateV::Member {
            offset,
            total,
            origins: origins_view(origins@),
            ids: strs_view(ids@),
            k: k as nat,
            member: member@.state,
        },
        ColState::Finished => ColStateV::Finished,
    }
}

/// Resolves a user's bookmark collection: pages of member ids, each
/// member resolved as a single post, permission-refused members skipped.
/// Works only when the caller's client configuration carries the
/// account's cookies.
pub struct Collection {
    client: Client,
    uid: String,
    state: ColState,
}

pub struct CollectionV {
    pub uid: Seq<char>,
    pub client: Seq<(Seq<char>, Seq<char>)>,
    pub state: ColStateV,
}

impl View for Collection {
    type V = CollectionV;

    closed spec fn view(&self) -> CollectionV {
        CollectionV { uid: self.uid@, client: self.client@, state: cstate_view(self.state) }
    }
}

/// The user id named by a bookmark URL: the fourth-from-last path
/// segment, after trailing slashes of the input are trimmed.
pub open spec fn collection_new_spec(parts: crate::urlinfo::UrlPartsV) -> Result<
    Seq<char>,
    ErrorV,
> {
    if parts.segments.len() >= 4 {
        Ok(parts.segments[parts.segments.len() - 4])
    } else {
        Err(ErrorV::InvalidUrl { url: parts.normalized })
    }
}

impl Collection {
    pub fn new(s: &str) -> (r: Result<Collection, Error>)
        ensures
            match crate::urlinfo::url_parts_of(strip_all_suffix(s@, "/"@)) {
                Some(parts) => match collection_new_spec(parts) {
                    Ok(uid) => r matches Ok(v) && v.wf() && v@.uid == uid && v@.state is Idle
                        && v@.client
                        =~= seq![
                        ("user-agent"@, crate::client::UA@),
                        ("referer"@, "https://www.pixiv.net/"@),
                    ],
                    Err(e) => r matches Err(x) && x@ == e,
                },
                None => r matches Err(x) && x@ == (ErrorV::ParseUrl {
                    url: strip_all_suffix(s@, "/"@),
                }),
            },
    {
        proof {
            reveal_strlit("/");
        }
        let trimmed = str_strip_all_suffix(s, "/");
        let parts = match crate::urlinfo::parse_url_parts(trimmed) {
            Some(p) => p,
            None => {
                return Err(Error::ParseUrlError { url: String::from_str(trimmed) });
            },
        };
        if parts.segments.len() < 4 {
            return Err(Error::InvalidUrl { url: parts.normalized });
        }
        let uid = parts.segments[parts.segments.len() - 4].clone();
        Ok(Self::with_uid(uid))
    }

    pub fn with_uid(uid: String) -> (r: Self)
        ensures
            r.wf(),
            r@.uid == uid@,
            r@.state is Idle,
            r@.client =~= seq![
                ("user-agent"@, crate::client::UA@),
                ("referer"@, "https://www.pixiv.net/"@),
            ],
    {
        Self::with_client(Client::with_referer("https://www.pixiv.net/"), uid)
    }

    pub fn with_client(client: Client, uid: String) -> (r: Self)
        ensures
            r@ == (CollectionV { uid: uid@, client: client@, state: ColStateV::Idle }),
            r.wf(),
    {
        Collection { client, uid, state: ColState::Idle }
    }

    pub open spec fn running(&self) -> bool {
        col_state_running(self@.state)
    }

    /// The member cursor points into the member list, and the embedded
    /// member resolver is the cursor's member.
    pub closed spec fn wf(&self) -> bool {
        match self.state {
            ColState::Member { ids, k, member, .. } => (k as nat) < ids@.len() && member@.pid
                == ids@[k as int]@,
            _ => true,
        }
    }

    pub fn is_running(&self) -> (r: bool)
        ensures
            r == self.running(),
    {
        match &self.state {
            ColState::Page { .. } => true,
            ColState::Member { member, .. } => member.is_running(),
            _ => false,
        }
    }

    pub fn client(&self) -> (r: &Client)
        ensures
            r@ == self@.client,
    {
        &self.client
    }

    pub fn set_client(&mut self, client: Client)
        ensures
            final(self)@ == (CollectionV { client: client@, ..old(self)@ }),
            final(self).wf() == old(self).wf(),
    {
        self.client = client;
    }

    /// Begin (or begin again): the first request is the first page.
    pub fn start(&mut self) -> (r: Request)
        ensures
            final(self)@ == (CollectionV {
                state: ColStateV::Page { offset: 0, total: None, origins: Seq::empty() },
                ..old(self)@
            }),
            final(self).wf(),
            r@ == (RequestV::Get { url: bookmarks_url_spec(old(self)@.uid, 0) }),
    {
        self.state = ColState::Page { offset: 0, total: None, origins: Vec::new() };
        proof {
            assert(origins_view(Seq::<Origin>::empty()) =~= Seq::<OriginV>::empty());
        }
        bookmarks_request(&self.uid, 0)
    }

    /// Consume one response and move one step, as `col_step` says.
    pub fn on_response(&mut self, resp: Response) -> (r: Outcome)
        requires
            old(self).running(),
            old(self).wf(),
        ensures
            ({
                let (s2, out) = col_step(old(self)@.uid, old(self)@.state, resp);
                final(self)@ == (CollectionV { state: s2, ..old(self)@ }) && r@ == out
            }),
            final(self).wf(),
    {
        let mut st = ColState::Finished;
        core::mem::swap(&mut st, &mut self.state);
        match st {
            ColState::Page { offset, total, origins } => match resp {
                Response::Json(j) => {
                    let works: Option<&Vec<Json>> = match j.get("body") {
                        Some(b) => match b.get("works") {
                            Some(w) => w.arr_of(),
                            None => None,
                        },
                        None => None,
                    };
                    let works = match works {
                        Some(w) => w,
                        None => {
                            return Outcome::Failed(Error::InvalidResponse { resp: j });
                        },
                    };
                    let ids = match collect_work_ids(works) {
                        Some(ids) => ids,
                        None => {
                            return Outcome::Failed(Error::InvalidResponse { resp: j });
                        },
                    };
                    let total2: Option<u64> = match total {
                        Some(t) => Some(t),
                        None => {
                            let t: u64 = match j.get("body") {
                                Some(b) => match b.get("total") {
                                    Some(v) => match v.u64_of() {
                                        Some(t) => t,
                                        None => 0,
                                    },
                                    None => 0,
                                },
                                None => 0,
                            };
                            Some(t)
                        },
                    };
                    if ids.len() == 0 {
                        self.advance(offset, total2, origins)
                    } else {
                        let pid = ids[0].clone();
                        let mut member = Pixiv::with_client(self.client.clone(), pid);
                        let req = member.start();
                        self.state = ColState::Member {
                            offset,
                            total: total2,
                            origins,
                            ids,
                            k: 0,
                            member,
                        };
                        Outcome::Next(req)
                    }
                },
                Response::Text(t) => Outcome::Failed(
                    Error::InvalidResponse { resp: Json::Str(t) },
                ),
                Response::Failed => Outcome::Failed(
                    Error::NetworkError { url: bookmarks_request_url(&self.uid, offset) },
                ),
            },
            ColState::Member { offset, total, mut origins, ids, k, mut member } => {
                let out = member.on_response(resp);
                match out {
                    Outcome::Next(req) => {
                        self.state = ColState::Member { offset, total, origins, ids, k, member };
                        Outcome::Next(req)
                    },
                    Outcome::Done(p) => {
                        let ghost origins0 = origins@;
                        let (mut raws, _title) = p.into_parts();
                        let ghost raws0 = raws@;
                        origins.append(&mut raws);
                        proof {
                            lemma_origins_view_concat(origins0, raws0);
                        }
                        self.next_member(offset, total, origins, ids, k)
                    },
                    Outcome::Failed(e) => {
                        if e.is_permission_denied() {
                            self.next_member(offset, total, origins, ids, k)
                        } else {
                            Outcome::Failed(e)
                        }
                    },
                }
            },
            _ => Outcome::Failed(
                Error::InvalidResponse {
                    resp: match resp {
                        Response::Json(j) => j,
                        Response::Text(t) => Json::Str(t),
                        Response::Failed => Json::Null,
                    },
                },
            ),
        }
    }

    fn next_member(
        &mut self,
        offset: u64,
        total: Option<u64>,
        origins: Vec<Origin>,
        ids: Vec<String>,
        k: usize,
    ) -> (r: Outcome)
        requires
            k < ids@.len(),
        ensures
            ({
                let (s2, out) = next_member_spec(
                    old(self)@.uid,
                    offset,
                    total,
                    origins_view(origins@),
                    strs_view(ids@),
                    k as nat,
                );
                final(self)@ == (CollectionV { state: s2, ..old(self)@ }) && r@ == out
            }),
            final(self).wf(),
    {
        let n = ids.len();
        if k + 1 < n {
            let pid = ids[k + 1].clone();
            let mut member = Pixiv::with_client(self.client.clone(), pid);
            let req = member.start();
            self.state = ColState::Member { offset, total, origins, ids, k: k + 1, member };
            Outcome::Next(req)
        } else {
            self.advance(offset, total, origins)
        }
    }

    fn advance(&mut self, offset: u64, total: Option<u64>, origins: Vec<Origin>) -> (r: Outcome)
        ensures
            ({
                let (s2, out) = advance_spec(old(self)@.uid, offset, total, origins_view(origins@));
                final(self)@ == (CollectionV { state: s2, ..old(self)@ }) && r@ == out
            }),
            final(self).wf(),
    {
        let t: u64 = match total {
            Some(t) => t,
            None => 0,
        };
        if t <= offset || t - offset <= 96 {
            self.state = ColState::Finished;
            Outcome::Done(Playlist::new(origins, String::new()))
        } else {
            let next = offset + 96;
            self.state = ColState::Page { offset: next, total, origins };
            Outcome::Next(bookmarks_request(&self.uid, next))
        }
    }
}

fn bookmarks_request_url(uid: &String, offset: u64) -> (r: String)
    ensures
        r@ == bookmarks_url_spec(uid@, offset),
{
    let mut s = String::from_str("https://www.pixiv.net/ajax/user/");
    s.append(uid.as_str());
    s.append("/illusts/bookmarks");
    s.append("?tag=&offset=");
    s.append(u64_to_string(offset).as_str());
    s.append("&limit=96&rest=show");
    s
}

fn bookmarks_request(uid: &String, offset: u64) -> (r: Request)
    ensures
        r@ == (RequestV::Get { url: bookmarks_url_spec(uid@, offset) }),
{
    Request::Get { url: bookmarks_request_url(uid, offset) }
}

proof fn lemma_origins_view_concat(a: Seq<Origin>, b: Seq<Origin>)
    ensures
        origins_view(a + b) =~= origins_view(a) + origins_view(b),
{
    assert forall|j: int| 0 <= j < a.len() + b.len() implies #[trigger] origins_view(a + b)[j]
        == (origins_view(a) + origins_view(b))[j] by {
        if j < a.len() {
            assert((a + b)[j] == a[j]);
        } else {
            assert((a + b)[j] == b[j - a.len()]);
        }
    }
}

fn collect_work_ids(works: &Vec<Json>) -> (r: Option<Vec<String>>)
    ensures
        if work_ids_ok(works@) {
            r matches Some(v) && strs_view(v@) =~= work_ids_of(works@)
        } else {
            r is None
        },
{
    let n = works.len();
    let mut ids: Vec<String> = Vec::new();
    let mut i: usize = 0;
    while i < n
        invariant
            n == works@.len(),
            0 <= i <= n,
            ids@.len() == i,
            forall|j: int| 0 <= j < i ==> str_spec(get_j(#[trigger] works@[j], "id"@)) is Some,
            forall|j: int| 0 <= j < i ==> ids@[j]@ == work_ids_of(works@)[j],
        decreases n - i,
    {
        let entry = &works[i];
        let id: Option<&String> = match entry.get("id") {
            Some(v) => v.str_of(),
            None => None,
        };
        match id {
            Some(id) => {
                ids.push(id.clone());
            },
            None => {
                proof {
                    assert(str_spec(get_j(works@[i as int], "id"@)) is None);
                    assert(!work_ids_ok(works@));
                }
                return None;
            },
        }
        i = i + 1;
    }
    proof {
        assert(work_ids_ok(works@));
        assert(strs_view(ids@) =~= work_ids_of(works@));
    }
    Some(ids)
}

// ---------------------------------------------------------------------
// Laws of pagination
// ---------------------------------------------------------------------

/// Pagination terminates: a collection whose first page reports a total
/// within one page size, or reports none, is finished after that one
/// page, with the origins it gathered and no further page request.
pub proof fn lemma_single_page_termination(
    uid: Seq<char>,
    total: Option<u64>,
    origins: Seq<OriginV>,
)
    requires
        match total {
            Some(t) => t <= 96,
            None => true,
        },
    ensures
        advance_spec(uid, 0, total, origins).0 is Finished,
        advance_spec(uid, 0, total, origins).1 == OutcomeV::Done(
            PlaylistV { raws: origins, title: Seq::empty() },
        ),
{
}

/// Pagination advances: while the next cursor stays below the reported
/// total, exactly one more page is requested, one page size further on,
/// so the distance to the total strictly shrinks.
pub proof fn lemma_pagination_advances(
    uid: Seq<char>,
    offset: u64,
    t: u64,
    origins: Seq<OriginV>,
)
    requires
        offset as int + 96 < t as int,
    ensures
        advance_spec(uid, offset, Some(t), origins).0 == (ColStateV::Page {
            offset: (offset + 96) as u64,
            total: Some(t),
            origins,
        }),
        advance_spec(uid, offset, Some(t), origins).1 == OutcomeV::Next(
            RequestV::Get { url: bookmarks_url_spec(uid, (offset + 96) as u64) },
        ),
        t - (offset + 96) < t - offset,
{
}

// ---------------------------------------------------------------------
// Laws of origin content and of the member skip policy
// ---------------------------------------------------------------------

/// The one origin of a finished single-post resolution holds at least
/// one track.
pub proof fn lemma_pixiv_done_origins_nonempty(pid: Seq<char>, s: PixivStateV, resp: Response)
    ensures
        pixiv_step(pid, s, resp).1 matches OutcomeV::Done(p) ==> p.raws.len() == 1
            && p.raws[0].tracks.len() >= 1,
{
}

pub open spec fn col_state_ok(s: ColStateV) -> bool {
    match s {
        ColStateV::Page { origins, .. } => forall|i: int|
            0 <= i < origins.len() ==> (#[trigger] origins[i]).tracks.len() >= 1,
        ColStateV::Member { origins, .. } => forall|i: int|
            0 <= i < origins.len() ==> (#[trigger] origins[i]).tracks.len() >= 1,
        _ => true,
    }
}

/// Every origin a finished collection resolution reports holds at least
/// one track.
pub proof fn lemma_collection_done_origins_nonempty(uid: Seq<char>, s: ColStateV, resp: Response)
    requires
        col_state_ok(s),
    ensures
        ({
            let (s2, out) = col_step(uid, s, resp);
            col_state_ok(s2) && (out matches OutcomeV::Done(p) ==> forall|i: int|
                0 <= i < p.raws.len() ==> (#[trigger] p.raws[i]).tracks.len() >= 1)
        }),
{
    match s {
        ColStateV::Member { offset, total, origins, ids, k, member } => {
            lemma_pixiv_done_origins_nonempty(ids[k as int], member, resp);
            let (m2, out) = pixiv_step(ids[k as int], member, resp);
            match out {
                OutcomeV::Done(p) => {
                    assert forall|i: int| 0 <= i < origins.len() + p.raws.len() implies (
                    #[trigger] (origins + p.raws)[i]).tracks.len() >= 1 by {
                        if i < origins.len() {
                            assert((origins + p.raws)[i] == origins[i]);
                        } else {
                            assert((origins + p.raws)[i] == p.raws[i - origins.len()]);
                        }
                    }
                },
                _ => {},
            }
        },
        _ => {},
    }
}

/// Permission-restricted members are excluded, not fatal: when the
/// member resolver refuses the current member for permissions, the
/// collection keeps its collected origins and moves on — to the next
/// member, or to the next page — instead of failing.
pub proof fn lemma_collection_skips_permission_denied(
    uid: Seq<char>,
    offset: u64,
    total: Option<u64>,
    origins: Seq<OriginV>,
    ids: Seq<Seq<char>>,
    k: nat,
    member: PixivStateV,
    resp: Response,
)
    requires
        ({
            let (m2, out) = pixiv_step(ids[k as int], member, resp);
            out matches OutcomeV::Failed(e) && e matches ErrorV::PermissionDenied { .. }
        }),
    ensures
        col_step(uid, ColStateV::Member { offset, total, origins, ids, k, member }, resp)
            == next_member_spec(uid, offset, total, origins, ids, k),
{
}

} // verus!
