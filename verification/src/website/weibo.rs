//! The microblog platform's live-replay resolver.
use vstd::prelude::*;
use vstd::string::*;
use crate::client::Client;
use crate::error::{Error, ErrorV};
use crate::json::{Json, get_j, str_spec};
use crate::text::{first_nl, lemma_first_nl_at, lemma_first_nl_none, split_nl, strip_cr};
use crate::urlinfo::last_nonempty_segment;
use crate::{
    Origin, OriginV, Outcome, OutcomeV, Playlist, PlaylistV, Request, RequestV, Response, Track,
    TrackV,
};

verus! {

pub open spec fn live_show_url_spec(id: Seq<char>) -> Seq<char> {
    "https://weibo.com/l/!/2/wblive/room/show_pc_live.json?live_id="@ + id
}

/// The replay's video tracks: one per playlist line that does not open
/// a tag with a number sign, each resolved against the replay host.
pub open spec fn replay_tracks(lines: Seq<Seq<char>>) -> Seq<TrackV>
    decreases lines.len(),
{
    if lines.len() == 0 {
        Seq::empty()
    } else {
        let l = strip_cr(lines[0]);
        let rest = replay_tracks(lines.drop_first());
        if l.len() > 0 && l[0] == '#' {
            rest
        } else {
            seq![TrackV::Video("https://live.video.weibocdn.com/"@ + l)] + rest
        }
    }
}

pub enum WeiboStateV {
    Idle,
    Info,
    Replay { title: Seq<char>, url: Seq<char> },
    Finished,
}

pub open spec fn weibo_state_running(s: WeiboStateV) -> bool {
    s is Info || s is Replay
}

/// One transition of the replay resolver: the room lookup yields the
/// replay playlist's URL and the title; the playlist text yields one
/// video track per media line, in one untitled origin. A playlist with
/// no media line is an unrecognized shape: an origin always holds a
/// track.
pub open spec fn weibo_step(id: Seq<char>, s: WeiboStateV, resp: Response) -> (
    WeiboStateV,
    OutcomeV,
) {
    match s {
        WeiboStateV::Info => match resp {
            Response::Json(j) => match (
                str_spec(get_j(get_j(j, "data"@), "replay_origin_url"@)),
                str_spec(get_j(get_j(j, "data"@), "title"@)),
            ) {
                (Some(u), Some(t)) => (
                    WeiboStateV::Replay { title: t, url: u },
                    OutcomeV::Next(RequestV::GetText { url: u }),
                ),
                _ => (
                    WeiboStateV::Finished,
                    OutcomeV::Failed(ErrorV::InvalidResponse { resp: j }),
                ),
            },
            Response::Text(t) => (
                WeiboStateV::Finished,
                OutcomeV::Failed(ErrorV::InvalidResponse { resp: Json::Str(t) }),
            ),
            Response::Failed => (
                WeiboStateV::Finished,
                OutcomeV::Failed(ErrorV::Network { url: live_show_url_spec(id) }),
            ),
        },
        WeiboStateV::Replay { title, url } => match resp {
            Response::Text(t) => if replay_tracks(split_nl(t@)).len() > 0 {
                (
                    WeiboStateV::Finished,
                    OutcomeV::Done(PlaylistV {
                        raws: seq![
                            OriginV { tracks: replay_tracks(split_nl(t@)), title: Seq::empty() },
                        ],
                        title: title,
                    }),
                )
            } else {
                (
                    WeiboStateV::Finished,
                    OutcomeV::Failed(ErrorV::InvalidResponse { resp: Json::Str(t) }),
                )
            },
            Response::Json(j) => (
                WeiboStateV::Finished,
                OutcomeV::Failed(ErrorV::InvalidResponse { resp: j }),
            ),
            Response::Failed => (
                WeiboStateV::Finished,
                OutcomeV::Failed(ErrorV::Network { url: url }),
            ),
        },
        _ => (
            WeiboStateV::Finished,
            OutcomeV::Failed(ErrorV::InvalidResponse {
                resp: crate::website::bilibili::resp_payload(resp),
            }),
        ),
    }
}

enum WeiboState {
    Idle,
    Info,
    Replay { title: String, url: String },
    Finished,
}

spec fn wstate_view(s: WeiboState) -> WeiboStateV {
    match s {
        WeiboState::Idle => WeiboStateV::Idle,
        WeiboState::Info => WeiboStateV::Info,
        WeiboState::Replay { title, url } => WeiboStateV::Replay { title: title@, url: url@ },
        WeiboState::Finished => WeiboStateV::Finished,
    }
}

/// Resolves one live-replay URL: the room lookup, then the playlist text.
pub struct Live {
    id: String,
    client: Client,
    state: WeiboState,
}

pub struct WeiboLiveV {
    pub id: Seq<char>,
    pub client: Seq<(Seq<char>, Seq<char>)>,
    pub state: WeiboStateV,
}

impl View for Live {
    type V = WeiboLiveV;

    closed spec fn view(&self) -> WeiboLiveV {
        WeiboLiveV { id: self.id@, client: self.client@, state: wstate_view(self.state) }
    }
}

/// The room id named by a replay URL: its last non-empty path segment.
pub open spec fn weibo_new_spec(parts: crate::urlinfo::UrlPartsV) -> Result<Seq<char>, ErrorV> {
    match last_nonempty_segment(parts.segments) {
        Some(seg) => Ok(seg),
        None => Err(ErrorV::InvalidUrl { url: parts.normalized }),
    }
}

impl Live {
    pub fn new(s: &str) -> (r: Result<Live, Error>)
        ensures
            match crate::urlinfo::url_parts_of(s@) {
                Some(parts) => match weibo_new_spec(parts) {
                    Ok(id) => r matches Ok(v) && v@.id == id && v@.state is Idle && v@.client
                        =~= seq![
                        ("user-agent"@, crate::client::UA@),
                        ("referer"@, "https://weibo.com"@),
                    ],
                    Err(e) => r matches Err(x) && x@ == e,
                },
                None => r matches Err(x) && x@ == (ErrorV::ParseUrl { url: s@ }),
            },
    {
        let parts = match crate::urlinfo::parse_url_parts(s) {
            Some(p) => p,
            None => {
                return Err(Error::ParseUrlError { url: String::from_str(s) });
            },
        };
        let seg = match parts.last_nonempty_segment() {
            Some(seg) => seg,
            None => {
                return Err(Error::InvalidUrl { url: parts.normalized });
            },
        };
        Ok(Live {
            id: seg.clone(),
            client: Client::with_referer("https://weibo.com"),
            state: WeiboState::Idle,
        })
    }

    pub open spec fn running(&self) -> bool {
        weibo_state_running(self@.state)
    }

    pub fn is_running(&self) -> (r: bool)
        ensures
            r == self.running(),
    {
        match self.state {
            WeiboState::Info => true,
            WeiboState::Replay { .. } => true,
            _ => false,
        }
    }

    pub fn client(&self) -> (r: &Client)
        ensures
            r@ == self@.client,
    {
        &self.client
    }

    pub fn set_client(&mut self, client: Client)
        ensures
            final(self)@ == (WeiboLiveV { client: client@, ..old(self)@ }),
    {
        self.client = client;
    }

    /// Begin (or begin again): the first request is the room lookup.
    pub fn start(&mut self) -> (r: Request)
        ensures
            final(self)@ == (WeiboLiveV { state: WeiboStateV::Info, ..old(self)@ }),
            r@ == (RequestV::Get { url: live_show_url_spec(old(self)@.id) }),
    {
        self.state = WeiboState::Info;
        let mut s = String::from_str(
            "https://weibo.com/l/!/2/wblive/room/show_pc_live.json?live_id=",
        );
        s.append(self.id.as_str());
        Request::Get { url: s }
    }

    /// Consume one response and move one step, as `weibo_step` says.
    pub fn on_response(&mut self, resp: Response) -> (r: Outcome)
        requires
            old(self).running(),
        ensures
            ({
                let (s2, out) = weibo_step(old(self)@.id, old(self)@.state, resp);
                final(self)@ == (WeiboLiveV { state: s2, ..old(self)@ }) && r@ == out
            }),
    {
        let mut st = WeiboState::Finished;
        core::mem::swap(&mut st, &mut self.state);
        match st {
            WeiboState::Info => match resp {
                Response::Json(j) => {
                    let replay: Option<&String> = match j.get("data") {
                        Some(d) => match d.get("replay_origin_url") {
                            Some(u) => u.str_of(),
                            None => None,
                        },
                        None => None,
                    };
                    let title: Option<&String> = match j.get("data") {
                        Some(d) => match d.get("title") {
                            Some(t) => t.str_of(),
                            None => None,
                        },
                        None => None,
                    };
                    match (replay, title) {
                        (Some(u), Some(t)) => {
                            let url = u.clone();
                            let req = Request::GetText { url: u.clone() };
                            self.state = WeiboState::Replay { title: t.clone(), url };
                            Outcome::Next(req)
                        },
                        _ => Outcome::Failed(Error::InvalidResponse { resp: j }),
                    }
                },
                Response::Text(t) => Outcome::Failed(
                    Error::InvalidResponse { resp: Json::Str(t) },
                ),
                Response::Failed => {
                    let mut s = String::from_str(
                        "https://weibo.com/l/!/2/wblive/room/show_pc_live.json?live_id=",
                    );
                    s.append(self.id.as_str());
                    Outcome::Failed(Error::NetworkError { url: s })
                },
            },
            WeiboState::Replay { title, url } => match resp {
                Response::Text(t) => {
                    let tracks = replay_tracks_exec(t.as_str());
                    if tracks.len() == 0 {
                        return Outcome::Failed(Error::InvalidResponse { resp: Json::Str(t) });
                    }
                    let origin = Origin::new(tracks, String::new());
                    let p = Playlist::new(vec![origin], title);
                    proof {
                        assert(origin@.tracks =~= replay_tracks(split_nl(t@)));
                        assert(p@.raws =~= seq![
                            OriginV { tracks: replay_tracks(split_nl(t@)), title: Seq::empty() },
                        ]);
                    }
                    Outcome::Done(p)
                },
                Response::Json(j) => Outcome::Failed(Error::InvalidResponse { resp: j }),
                Response::Failed => Outcome::Failed(Error::NetworkError { url }),
            },
            _ => Outcome::Failed(
                Error::InvalidResponse {
                    resp: match resp {
                        Response::Json(j) => j,
                        Response::Text(t) => Json::Str(t),
                        Response::Failed => Json::Null,
                    },
                },
            ),
        }
    }
}

/// Find the next newline at or after `start`; the text's length when
/// none remains.
fn find_nl_from(t: &str, start: usize) -> (k: usize)
    requires
        start <= t@.len(),
        t@.len() <= usize::MAX,
    ensures
        start <= k <= t@.len(),
        forall|j: int| start <= j < k ==> t@[j] != '\n',
        k < t@.len() ==> t@[k as int] == '\n',
{
    let n = t.unicode_len();
    let mut k = start;
    while k < n
        invariant
            start <= k <= n,
            n == t@.len(),
            forall|j: int| start <= j < k ==> t@[j] != '\n',
        decreases n - k,
    {
        if t.get_char(k) == '\n' {
            return k;
        }
        k = k + 1;
    }
    k
}

/// Split the replay playlist text into lines and keep the media lines,
/// one video track each.
fn replay_tracks_exec(t: &str) -> (r: Vec<Track>)
    ensures
        r@.len() == replay_tracks(split_nl(t@)).len(),
        forall|j: int| 0 <= j < r@.len() ==> (#[trigger] r@[j])@ == replay_tracks(split_nl(t@))[j],
{
    let n = t.unicode_len();
    let mut tracks: Vec<Track> = Vec::new();
    let ghost mut done: Seq<TrackV> = Seq::empty();
    let mut start: usize = 0;
    proof {
        assert(t@.skip(0) =~= t@);
    }
    while start < n
        invariant
            n == t@.len(),
            0 <= start <= n,
            tracks@.len() == done.len(),
            forall|j: int| 0 <= j < done.len() ==> (#[trigger] tracks@[j])@ == done[j],
            done + replay_tracks(split_nl(t@.skip(start as int))) == replay_tracks(split_nl(t@)),
        decreases n - start,
    {
        let ghost suf = t@.skip(start as int);
        let k = find_nl_from(t, start);
        let line_end: usize = if k > start && t.get_char(k - 1) == '\r' {
            k - 1
        } else {
            k
        };
        let line = t.substring_char(start, line_end);
        proof {
            assert(line@ =~= t@.subrange(start as int, line_end as int));
            // the raw line is the suffix up to the newline (or its end)
            if k < n {
                lemma_first_nl_at(suf, k - start);
            } else {
                lemma_first_nl_none(suf);
            }
            assert(suf.take(k - start) =~= t@.subrange(start as int, k as int));
            if line_end < k {
                assert(t@.subrange(start as int, k as int).last() == '\r');
                assert(t@.subrange(start as int, k as int).drop_last() =~= t@.subrange(
                    start as int,
                    line_end as int,
                ));
            }
            assert(line@ == strip_cr(t@.subrange(start as int, k as int)));
        }
        let keep = if line.unicode_len() > 0 {
            line.get_char(0) != '#'
        } else {
            true
        };
        if keep {
            let mut url = String::from_str("https://live.video.weibocdn.com/");
            url.append(line);
            tracks.push(Track::Video(url));
            proof {
                done = done.push(TrackV::Video("https://live.video.weibocdn.com/"@ + line@));
            }
        }
        proof {
            let lines = split_nl(suf);
            if k < n {
                assert(lines == seq![suf.take(k - start)] + split_nl(suf.skip(k - start + 1)));
                assert(lines[0] == suf.take(k - start));
                assert(lines.drop_first() =~= split_nl(suf.skip(k - start + 1)));
                assert(suf.skip(k - start + 1) =~= t@.skip(k + 1));
            } else {
                assert(lines == seq![suf]);
                assert(suf =~= suf.take(k - start));
                assert(lines[0] == suf.take(k - start));
                assert(lines.drop_first() =~= Seq::<Seq<char>>::empty());
                assert(split_nl(t@.skip(n as int)) =~= Seq::<Seq<char>>::empty());
                assert(t@.skip(n as int) =~= Seq::<char>::empty());
            }
        }
        start = if k < n {
            k + 1
        } else {
            n
        };
    }
    proof {
        assert(t@.skip(n as int) =~= Seq::<char>::empty());
        assert(split_nl(Seq::<char>::empty()) =~= Seq::<Seq<char>>::empty());
        assert(done + Seq::<TrackV>::empty() =~= done);
    }
    tracks
}

/// The one origin of a finished replay resolution holds at least one
/// track.
pub proof fn lemma_weibo_done_origins_nonempty(id: Seq<char>, s: WeiboStateV, resp: Response)
    ensures
        weibo_step(id, s, resp).1 matches OutcomeV::Done(p) ==> p.raws.len() == 1
            && p.raws[0].tracks.len() >= 1,
{
}

} // verus!
