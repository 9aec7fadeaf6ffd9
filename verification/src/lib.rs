//! Resolution of media-platform content URLs into normalized playlists.
//!
//! The library classifies an input URL, drives the platform-specific
//! sequence of API calls as a step-by-step resolver, and reduces the
//! responses to a uniform data model: a [`Playlist`] of [`Origin`]s,
//! each holding one or more [`Track`]s. All network traffic is left
//! to the caller, who performs each emitted request and feeds the
//! response back into the resolver.
use vstd::prelude::*;

pub mod client;
pub mod error;
pub mod json;
pub mod text;
pub mod urlinfo;
pub mod website;

pub use crate::error::Error;
pub use crate::Playlist as Finata;

verus! {

/// The result of one resolution call.
pub type FinaResult<T = Playlist> = Result<T, Error>;

/// One fetchable stream, tagged by media kind, holding its resolved URL.
#[derive(Debug, Clone)]
pub enum Track {
    Video(String),
    Audio(String),
    Text(String),
    Image(String),
}

pub enum TrackV {
    Video(Seq<char>),
    Audio(Seq<char>),
    Text(Seq<char>),
    Image(Seq<char>),
}

impl View for Track {
    type V = TrackV;

    open spec fn view(&self) -> TrackV {
        match self {
            Track::Video(u) => TrackV::Video(u@),
            Track::Audio(u) => TrackV::Audio(u@),
            Track::Text(u) => TrackV::Text(u@),
            Track::Image(u) => TrackV::Image(u@),
        }
    }
}

impl Track {
    /// The resolved URL held by this track, whatever its kind.
    pub fn as_url(&self) -> (r: &String)
        ensures
            self@ == TrackV::Video(r@) || self@ == TrackV::Audio(r@) || self@ == TrackV::Text(r@)
                || self@ == TrackV::Image(r@),
    {
        match self {
            Track::Video(url) | Track::Audio(url) | Track::Image(url) | Track::Text(url) => url,
        }
    }
}

impl PartialEq for Track {
    fn eq(&self, other: &Track) -> (r: bool) {
        match (self, other) {
            (Track::Video(a), Track::Video(b)) => *a == *b,
            (Track::Audio(a), Track::Audio(b)) => *a == *b,
            (Track::Text(a), Track::Text(b)) => *a == *b,
            (Track::Image(a), Track::Image(b)) => *a == *b,
            _ => false,
        }
    }
}

impl vstd::std_specs::cmp::PartialEqSpecImpl for Track {
    open spec fn obeys_eq_spec() -> bool {
        true
    }

    open spec fn eq_spec(&self, other: &Track) -> bool {
        self@ == other@
    }
}

/// One playable unit: an ordered collection of tracks with a label.
#[derive(Debug)]
pub struct Origin {
    pub tracks: Vec<Track>,
    pub title: String,
}

pub struct OriginV {
    pub tracks: Seq<TrackV>,
    pub title: Seq<char>,
}

impl View for Origin {
    type V = OriginV;

    open spec fn view(&self) -> OriginV {
        OriginV { tracks: self.tracks@.map_values(|t: Track| t@), title: self.title@ }
    }
}

impl Origin {
    pub fn new(tracks: Vec<Track>, title: String) -> (r: Self)
        ensures
            r@ == (OriginV { tracks: tracks@.map_values(|t: Track| t@), title: title@ }),
    {
        Self { tracks, title }
    }

    pub fn video(url: String, title: String) -> (r: Self)
        ensures
            r@.tracks =~= seq![TrackV::Video(url@)],
            r@.title == title@,
    {
        let r = Self::new(vec![Track::Video(url)], title);
        proof {
            assert(r@.tracks =~= seq![r@.tracks[0]]);
        }
        r
    }

    pub fn audio(url: String, title: String) -> (r: Self)
        ensures
            r@.tracks =~= seq![TrackV::Audio(url@)],
            r@.title == title@,
    {
        let r = Self::new(vec![Track::Audio(url)], title);
        proof {
            assert(r@.tracks =~= seq![r@.tracks[0]]);
        }
        r
    }

    pub fn image(url: String, title: String) -> (r: Self)
        ensures
            r@.tracks =~= seq![TrackV::Image(url@)],
            r@.title == title@,
    {
        let r = Self::new(vec![Track::Image(url)], title);
        proof {
            assert(r@.tracks =~= seq![r@.tracks[0]]);
        }
        r
    }
}

impl PartialEq for Origin {
    fn eq(&self, other: &Origin) -> (r: bool) {
        if self.tracks.len() != other.tracks.len() {
            proof {
                assert(self@.tracks.len() == self.tracks@.len());
                assert(other@.tracks.len() == other.tracks@.len());
            }
            return false;
        }
        let n = self.tracks.len();
        let mut i: usize = 0;
        while i < n
            invariant
                n == self.tracks@.len() == other.tracks@.len(),
                0 <= i <= n,
            forall|j: int| 0 <= j < i ==> self.tracks@[j]@ == other.tracks@[j]@,
            decreases n - i,
        {
            if !(self.tracks[i] == other.tracks[i]) {
                proof {
                    assert(self@.tracks[i as int] != other@.tracks[i as int]);
                }
                return false;
            }
            i = i + 1;
        }
        proof {
            assert(self@.tracks =~= other@.tracks);
        }
        self.title == other.title
    }
}

impl vstd::std_specs::cmp::PartialEqSpecImpl for Origin {
    open spec fn obeys_eq_spec() -> bool {
        true
    }

    open spec fn eq_spec(&self, other: &Origin) -> bool {
        self@ == other@
    }
}

/// The resolution result: an ordered sequence of origins and a title.
#[derive(Debug)]
pub struct Playlist {
    raws: Vec<Origin>,
    title: String,
}

pub struct PlaylistV {
    pub raws: Seq<OriginV>,
    pub title: Seq<char>,
}

impl View for Playlist {
    type V = PlaylistV;

    closed spec fn view(&self) -> PlaylistV {
        PlaylistV { raws: self.raws@.map_values(|o: Origin| o@), title: self.title@ }
    }
}

impl Playlist {
    pub fn new(raws: Vec<Origin>, title: String) -> (r: Self)
        ensures
            r@ == (PlaylistV { raws: raws@.map_values(|o: Origin| o@), title: title@ }),
    {
        Self { raws, title }
    }

    pub fn raws(&self) -> (r: &Vec<Origin>)
        ensures
            r@.map_values(|o: Origin| o@) == self@.raws,
    {
        &self.raws
    }

    pub fn title(&self) -> (r: &str)
        ensures
            r@ == self@.title,
    {
        self.title.as_str()
    }

    pub fn into_title(self) -> (r: String)
        ensures
            r@ == self@.title,
    {
        self.title
    }

    pub fn into_parts(self) -> (r: (Vec<Origin>, String))
        ensures
            r.0@.map_values(|o: Origin| o@) == self@.raws,
            r.1@ == self@.title,
    {
        (self.raws, self.title)
    }
}

impl PartialEq for Playlist {
    fn eq(&self, other: &Playlist) -> (r: bool) {
        if self.raws.len() != other.raws.len() {
            proof {
                assert(self@.raws.len() == self.raws@.len());
                assert(other@.raws.len() == other.raws@.len());
            }
            return false;
        }
        let n = self.raws.len();
        let mut i: usize = 0;
        while i < n
            invariant
                n == self.raws@.len() == other.raws@.len(),
                0 <= i <= n,
            forall|j: int| 0 <= j < i ==> self.raws@[j]@ == other.raws@[j]@,
            decreases n - i,
        {
            if !(self.raws[i] == other.raws[i]) {
                proof {
                    assert(self@.raws[i as int] != other@.raws[i as int]);
                }
                return false;
            }
            i = i + 1;
        }
        proof {
            assert(self@.raws =~= other@.raws);
        }
        self.title == other.title
    }
}

impl vstd::std_specs::cmp::PartialEqSpecImpl for Playlist {
    open spec fn obeys_eq_spec() -> bool {
        true
    }

    open spec fn eq_spec(&self, other: &Playlist) -> bool {
        self@ == other@
    }
}

/// One HTTP request a resolver asks its caller to perform.
#[derive(Debug)]
pub enum Request {
    Get { url: String },
    GetText { url: String },
    Post { url: String },
    PostForm { url: String, form: Vec<(String, String)> },
}

pub enum RequestV {
    Get { url: Seq<char> },
    GetText { url: Seq<char> },
    Post { url: Seq<char> },
    PostForm { url: Seq<char>, form: Seq<(Seq<char>, Seq<char>)> },
}

impl View for Request {
    type V = RequestV;

    open spec fn view(&self) -> RequestV {
        match self {
            Request::Get { url } => RequestV::Get { url: url@ },
            Request::GetText { url } => RequestV::GetText { url: url@ },
            Request::Post { url } => RequestV::Post { url: url@ },
            Request::PostForm { url, form } => RequestV::PostForm {
                url: url@,
                form: form@.map_values(|p: (String, String)| (p.0@, p.1@)),
            },
        }
    }
}

impl Request {
    pub fn url(&self) -> (r: &String)
        ensures
            self@ matches RequestV::Get { url } ==> r@ == url,
            self@ matches RequestV::GetText { url } ==> r@ == url,
            self@ matches RequestV::Post { url } ==> r@ == url,
            self@ matches RequestV::PostForm { url, .. } ==> r@ == url,
    {
        match self {
            Request::Get { url } | Request::GetText { url } | Request::Post { url }
            | Request::PostForm { url, .. } => url,
        }
    }
}

/// What the caller hands back for one request: a decoded JSON body, a
/// raw text body, or the mark that the fetch or its decode failed.
#[derive(Debug)]
pub enum Response {
    Json(crate::json::Json),
    Text(String),
    Failed,
}

/// What a resolver reports after consuming one response.
#[derive(Debug)]
pub enum Outcome {
    Next(Request),
    Done(Playlist),
    Failed(crate::error::Error),
}

pub enum OutcomeV {
    Next(RequestV),
    Done(PlaylistV),
    Failed(crate::error::ErrorV),
}

/// The views of a sequence of origins, element-wise.
pub open spec fn origins_view(s: Seq<Origin>) -> Seq<OriginV> {
    s.map_values(|o: Origin| o@)
}

/// The per-origin track content of a finished outcome; nothing for an
/// unfinished or failed one.
pub open spec fn outcome_tracks(o: Option<OutcomeV>) -> Option<Seq<Seq<TrackV>>> {
    match o {
        Some(OutcomeV::Done(p)) => Some(p.raws.map_values(|og: OriginV| og.tracks)),
        _ => None,
    }
}

impl View for Outcome {
    type V = OutcomeV;

    open spec fn view(&self) -> OutcomeV {
        match self {
            Outcome::Next(r) => OutcomeV::Next(r@),
            Outcome::Done(p) => OutcomeV::Done(p@),
            Outcome::Failed(e) => OutcomeV::Failed(e@),
        }
    }
}

} // verus!
