use finata::error::Error;
use finata::json::Json;
use finata::website::bilibili;
use finata::website::netease_music;
use finata::website::pixiv;
use finata::website::weibo;
use finata::website::{choose_extractor, Resolver};
use finata::{Outcome, Request, Response, Track};

fn obj(fields: Vec<(&str, Json)>) -> Json {
    Json::Obj(fields.into_iter().map(|(k, v)| (k.to_string(), v)).collect())
}

fn s(v: &str) -> Json {
    Json::Str(v.to_string())
}

fn pages_json() -> Json {
    obj(vec![(
        "data",
        Json::Arr(vec![obj(vec![("cid", Json::Int(999)), ("part", s("P1"))])]),
    )])
}

fn info_json(aid: i64) -> Json {
    obj(vec![("data", obj(vec![("aid", Json::Int(aid))]))])
}

fn split_manifest_json() -> Json {
    let dash = obj(vec![
        (
            "video",
            Json::Arr(vec![obj(vec![("baseUrl", s("https://cdn/v"))])]),
        ),
        (
            "audio",
            Json::Arr(vec![obj(vec![("baseUrl", s("https://cdn/a"))])]),
        ),
    ]);
    obj(vec![("data", obj(vec![("dash", dash)]))])
}

fn title_json(title: &str) -> Json {
    obj(vec![("data", obj(vec![("title", s(title))]))])
}

fn expect_next(out: Outcome) -> Request {
    match out {
        Outcome::Next(r) => r,
        other => panic!("expected another request, got {:?}", other),
    }
}

fn run_video_fixture() -> finata::Playlist {
    let mut v = bilibili::Video::with_id(bilibili::Id::Av(123), None);
    let req = v.start();
    assert_eq!(
        req.url().as_str(),
        "https://api.bilibili.com/x/player/pagelist?aid=123"
    );
    let req = expect_next(v.on_response(Response::Json(pages_json())));
    assert_eq!(
        req.url().as_str(),
        "https://api.bilibili.com/x/web-interface/view?aid=123"
    );
    let req = expect_next(v.on_response(Response::Json(info_json(1))));
    assert_eq!(
        req.url().as_str(),
        "https://api.bilibili.com/x/player/playurl?cid=999&qn=127&fnval=2000&fourk=1&avid=1"
    );
    let req = expect_next(v.on_response(Response::Json(split_manifest_json())));
    assert_eq!(
        req.url().as_str(),
        "https://api.bilibili.com/x/web-interface/view?aid=1"
    );
    match v.on_response(Response::Json(title_json("Demo Title"))) {
        Outcome::Done(p) => p,
        other => panic!("expected a playlist, got {:?}", other),
    }
}

#[test]
fn video_resolution_scenario() {
    let p = run_video_fixture();
    assert_eq!(p.title(), "Demo Title");
    assert_eq!(p.raws().len(), 1);
    let origin = &p.raws()[0];
    assert_eq!(origin.title.as_str(), "P1");
    assert_eq!(origin.tracks.len(), 2);
    assert!(matches!(&origin.tracks[0], Track::Video(u) if u.as_str() == "https://cdn/v"));
    assert!(matches!(&origin.tracks[1], Track::Audio(u) if u.as_str() == "https://cdn/a"));
}

#[test]
fn video_resolution_idempotent() {
    // the same inputs and the same responses resolve to the same playlist
    let p1 = run_video_fixture();
    let p2 = run_video_fixture();
    assert!(p1 == p2);
}

#[test]
fn video_and_base_resolution_round_trip() {
    // resolving the extracted numeric handles through the base resolver
    // yields the same track set
    let p1 = run_video_fixture();
    let mut base = bilibili::BaseExtractor::new(1, 999, finata::client::Client::new());
    let req = base.start();
    assert_eq!(
        req.url().as_str(),
        "https://api.bilibili.com/x/player/playurl?cid=999&qn=127&fnval=2000&fourk=1&avid=1"
    );
    expect_next(base.on_response(Response::Json(split_manifest_json())));
    let p2 = match base.on_response(Response::Json(title_json("Demo Title"))) {
        Outcome::Done(p) => p,
        other => panic!("expected a playlist, got {:?}", other),
    };
    assert!(p1.raws()[0].tracks == p2.raws()[0].tracks);
    assert_eq!(p1.title(), p2.title());
}

#[test]
fn base_title_failures_are_swallowed() {
    let mut base = bilibili::BaseExtractor::new(1, 999, finata::client::Client::new());
    base.start();
    expect_next(base.on_response(Response::Json(split_manifest_json())));
    match base.on_response(Response::Failed) {
        Outcome::Done(p) => assert_eq!(p.title(), ""),
        other => panic!("expected a playlist with an empty title, got {:?}", other),
    }
}

#[test]
fn video_bad_manifest_fails_with_payload() {
    let mut v = bilibili::Video::with_id(bilibili::Id::Av(123), None);
    v.start();
    expect_next(v.on_response(Response::Json(pages_json())));
    expect_next(v.on_response(Response::Json(info_json(1))));
    let bad = obj(vec![("data", obj(vec![("neither", Json::Int(0))]))]);
    match v.on_response(Response::Json(bad)) {
        Outcome::Failed(Error::InvalidResponse { .. }) => {},
        other => panic!("expected a shape failure, got {:?}", other),
    }
}

#[test]
fn video_network_failure_carries_url() {
    let mut v = bilibili::Video::with_id(bilibili::Id::Av(123), None);
    v.start();
    match v.on_response(Response::Failed) {
        Outcome::Failed(Error::NetworkError { url }) => {
            assert_eq!(
                url.as_str(),
                "https://api.bilibili.com/x/player/pagelist?aid=123"
            );
        },
        other => panic!("expected a network failure, got {:?}", other),
    }
}

#[test]
fn video_page_selection_uses_one_based_index() {
    let two_pages = obj(vec![(
        "data",
        Json::Arr(vec![
            obj(vec![("cid", Json::Int(10)), ("part", s("a"))]),
            obj(vec![("cid", Json::Int(20)), ("part", s("b"))]),
        ]),
    )]);
    let mut v = bilibili::Video::with_id(bilibili::Id::Av(5), Some(2));
    v.start();
    expect_next(v.on_response(Response::Json(two_pages)));
    expect_next(v.on_response(Response::Json(info_json(5))));
    // the manifest request names the second page's numeric handle
    let mut v2 = bilibili::Video::with_id(bilibili::Id::Av(5), Some(3));
    v2.start();
    let two_pages = obj(vec![(
        "data",
        Json::Arr(vec![obj(vec![("cid", Json::Int(10))])]),
    )]);
    match v2.on_response(Response::Json(two_pages)) {
        Outcome::Failed(Error::InvalidResponse { .. }) => {},
        other => panic!("expected an out-of-range page to fail, got {:?}", other),
    }
}

#[test]
fn bangumi_selects_episode_by_id() {
    let season = obj(vec![(
        "result",
        obj(vec![
            (
                "episodes",
                Json::Arr(vec![obj(vec![
                    ("id", Json::Int(28251)),
                    ("aid", Json::Int(7)),
                    ("cid", Json::Int(70)),
                ])]),
            ),
            (
                "section",
                Json::Arr(vec![obj(vec![(
                    "episodes",
                    Json::Arr(vec![obj(vec![
                        ("id", Json::Int(417116)),
                        ("aid", Json::Int(8)),
                        ("cid", Json::Int(80)),
                    ])]),
                )])]),
            ),
        ]),
    )]);
    let mut b = bilibili::Bangumi::with_id(bilibili::Id::Ep(417116));
    b.start();
    let req = expect_next(b.on_response(Response::Json(season)));
    assert_eq!(
        req.url().as_str(),
        "https://api.bilibili.com/x/player/playurl?cid=80&qn=127&fnval=2000&fourk=1&avid=8"
    );
}

#[test]
fn bangumi_season_takes_first_episode() {
    let season = obj(vec![(
        "result",
        obj(vec![(
            "episodes",
            Json::Arr(vec![
                obj(vec![
                    ("id", Json::Int(1)),
                    ("aid", Json::Int(7)),
                    ("cid", Json::Int(70)),
                ]),
                obj(vec![
                    ("id", Json::Int(2)),
                    ("aid", Json::Int(9)),
                    ("cid", Json::Int(90)),
                ]),
            ]),
        )]),
    )]);
    let mut b = bilibili::Bangumi::with_id(bilibili::Id::Ss(1512));
    b.start();
    let req = expect_next(b.on_response(Response::Json(season)));
    assert_eq!(
        req.url().as_str(),
        "https://api.bilibili.com/x/player/playurl?cid=70&qn=127&fnval=2000&fourk=1&avid=7"
    );
}

#[test]
fn bilibili_live_resolution() {
    let mut l = bilibili::Live::with_id(92613);
    let req = l.start();
    assert_eq!(
        req.url().as_str(),
        "http://api.live.bilibili.com/room/v1/Room/room_init?id=92613"
    );
    let room = obj(vec![(
        "data",
        obj(vec![("room_id", Json::Int(42)), ("uid", Json::Int(77))]),
    )]);
    let req = expect_next(l.on_response(Response::Json(room)));
    assert_eq!(
        req.url().as_str(),
        "https://api.live.bilibili.com/room/v1/Room/playUrl?cid=42&platform=h5&quality=4"
    );
    let stream = obj(vec![(
        "data",
        obj(vec![(
            "durl",
            Json::Arr(vec![obj(vec![("url", s("https://live/flv"))])]),
        )]),
    )]);
    let req = expect_next(l.on_response(Response::Json(stream)));
    assert_eq!(
        req.url().as_str(),
        "https://api.bilibili.com/x/space/acc/info?mid=77"
    );
    let space = obj(vec![(
        "data",
        obj(vec![("live_room", obj(vec![("title", s("room title"))]))]),
    )]);
    match l.on_response(Response::Json(space)) {
        Outcome::Done(p) => {
            assert_eq!(p.title(), "room title");
            assert_eq!(p.raws().len(), 1);
            assert!(
                matches!(&p.raws()[0].tracks[0], Track::Video(u) if u.as_str() == "https://live/flv")
            );
        },
        other => panic!("expected a playlist, got {:?}", other),
    }
}

fn song_url_json(url: &str) -> Json {
    obj(vec![(
        "data",
        Json::Arr(vec![obj(vec![("url", s(url))])]),
    )])
}

fn vip_refusal_json() -> Json {
    obj(vec![(
        "data",
        Json::Arr(vec![obj(vec![("code", Json::Int(-110))])]),
    )])
}

#[test]
fn song_resolution_with_artists() {
    let mut song = netease_music::Song::with_id(1458308282);
    let req = song.start();
    match &req {
        Request::PostForm { url, form } => {
            assert_eq!(
                url.as_str(),
                "https://music.163.com/api/song/enhance/player/url"
            );
            assert_eq!(form.len(), 2);
            assert_eq!(form[0].0.as_str(), "ids");
            assert_eq!(form[0].1.as_str(), "[1458308282]");
            assert_eq!(form[1].0.as_str(), "br");
            assert_eq!(form[1].1.as_str(), "999000");
        },
        other => panic!("expected a form post, got {:?}", other),
    }
    expect_next(song.on_response(Response::Json(song_url_json("https://music/track.mp3"))));
    // artist entries are objects, so none contributes to the title
    let detail = obj(vec![(
        "songs",
        Json::Arr(vec![obj(vec![
            ("name", s("tune")),
            (
                "artists",
                Json::Arr(vec![obj(vec![("name", s("somebody"))])]),
            ),
        ])]),
    )]);
    match song.on_response(Response::Json(detail)) {
        Outcome::Done(p) => {
            assert_eq!(p.title(), "tune");
            assert!(
                matches!(&p.raws()[0].tracks[0], Track::Audio(u) if u.as_str() == "https://music/track.mp3")
            );
        },
        other => panic!("expected a playlist, got {:?}", other),
    }
}

#[test]
fn song_title_joins_plain_string_artists() {
    let mut song = netease_music::Song::with_id(1);
    song.start();
    expect_next(song.on_response(Response::Json(song_url_json("https://music/t"))));
    let detail = obj(vec![(
        "songs",
        Json::Arr(vec![obj(vec![
            ("name", s("tune")),
            ("artists", Json::Arr(vec![s("a"), s("b")])),
        ])]),
    )]);
    match song.on_response(Response::Json(detail)) {
        Outcome::Done(p) => assert_eq!(p.title(), "a,b - tune"),
        other => panic!("expected a playlist, got {:?}", other),
    }
}

#[test]
fn song_vip_refusal_is_permission_denied() {
    let mut song = netease_music::Song::with_id(2);
    song.start();
    match song.on_response(Response::Json(vip_refusal_json())) {
        Outcome::Failed(Error::PermissionDenied { .. }) => {},
        other => panic!("expected a permission refusal, got {:?}", other),
    }
}

fn playlist_detail_json(ids: &[i64], name: &str) -> Json {
    let entries: Vec<Json> = ids
        .iter()
        .map(|id| obj(vec![("id", Json::Int(*id))]))
        .collect();
    obj(vec![(
        "playlist",
        obj(vec![("trackIds", Json::Arr(entries)), ("name", s(name))]),
    )])
}

#[test]
fn playlist_skips_permission_denied_members() {
    // one tier-gated member among healthy ones is excluded, not fatal
    let mut pl = netease_music::PlayList::with_id(406607901);
    let req = pl.start();
    assert_eq!(
        req.url().as_str(),
        "https://music.163.com/api/v3/playlist/detail?id=406607901"
    );
    expect_next(pl.on_response(Response::Json(playlist_detail_json(&[1, 2, 3], "mix"))));
    expect_next(pl.on_response(Response::Json(song_url_json("https://music/1"))));
    expect_next(pl.on_response(Response::Json(vip_refusal_json())));
    match pl.on_response(Response::Json(song_url_json("https://music/3"))) {
        Outcome::Done(p) => {
            assert_eq!(p.title(), "mix");
            assert_eq!(p.raws().len(), 2);
            assert!(
                matches!(&p.raws()[0].tracks[0], Track::Audio(u) if u.as_str() == "https://music/1")
            );
            assert!(
                matches!(&p.raws()[1].tracks[0], Track::Audio(u) if u.as_str() == "https://music/3")
            );
        },
        other => panic!("expected two origins and no error, got {:?}", other),
    }
}

#[test]
fn playlist_single_failure_reported_alone() {
    let mut pl = netease_music::PlayList::with_id(1);
    pl.start();
    expect_next(pl.on_response(Response::Json(playlist_detail_json(&[1, 2], "mix"))));
    expect_next(pl.on_response(Response::Json(song_url_json("https://music/1"))));
    match pl.on_response(Response::Failed) {
        Outcome::Failed(Error::NetworkError { url }) => {
            assert_eq!(
                url.as_str(),
                "https://music.163.com/api/song/enhance/player/url"
            );
        },
        other => panic!("expected the single member failure, got {:?}", other),
    }
}

#[test]
fn playlist_several_failures_aggregate() {
    let mut pl = netease_music::PlayList::with_id(1);
    pl.start();
    expect_next(pl.on_response(Response::Json(playlist_detail_json(&[1, 2], "mix"))));
    expect_next(pl.on_response(Response::Failed));
    match pl.on_response(Response::Failed) {
        Outcome::Failed(Error::AggregateFailure { errors }) => {
            assert_eq!(errors.len(), 2);
            assert!(matches!(&errors[0], Error::NetworkError { .. }));
            assert!(matches!(&errors[1], Error::NetworkError { .. }));
        },
        other => panic!("expected an aggregate failure, got {:?}", other),
    }
}

#[test]
fn playlist_keeps_vip_failures_when_asked() {
    let mut pl = netease_music::PlayList::extracts_vip(1, true);
    pl.start();
    expect_next(pl.on_response(Response::Json(playlist_detail_json(&[1, 2], "mix"))));
    expect_next(pl.on_response(Response::Json(vip_refusal_json())));
    match pl.on_response(Response::Json(song_url_json("https://music/2"))) {
        Outcome::Failed(Error::PermissionDenied { .. }) => {},
        other => panic!("expected the refusal to surface, got {:?}", other),
    }
}

fn bookmarks_page_json(ids: &[&str], total: i64) -> Json {
    let works: Vec<Json> = ids.iter().map(|id| obj(vec![("id", s(id))])).collect();
    obj(vec![(
        "body",
        obj(vec![("works", Json::Arr(works)), ("total", Json::Int(total))]),
    )])
}

#[test]
fn collection_two_page_pagination() {
    // a reported total of 150 with a page size of 96 takes exactly two
    // page fetches, at offsets 0 and 96
    let mut col = pixiv::Collection::with_uid("9930392".to_string());
    let req = col.start();
    assert_eq!(
        req.url().as_str(),
        "https://www.pixiv.net/ajax/user/9930392/illusts/bookmarks?tag=&offset=0&limit=96&rest=show"
    );
    let req = expect_next(col.on_response(Response::Json(bookmarks_page_json(&[], 150))));
    assert_eq!(
        req.url().as_str(),
        "https://www.pixiv.net/ajax/user/9930392/illusts/bookmarks?tag=&offset=96&limit=96&rest=show"
    );
    match col.on_response(Response::Json(bookmarks_page_json(&[], 150))) {
        Outcome::Done(p) => {
            assert_eq!(p.raws().len(), 0);
            assert_eq!(p.title(), "");
        },
        other => panic!("expected the collection to finish, got {:?}", other),
    }
}

#[test]
fn collection_single_page_when_total_small() {
    // a reported total below one page size takes exactly one page fetch
    let mut col = pixiv::Collection::with_uid("7".to_string());
    col.start();
    match col.on_response(Response::Json(bookmarks_page_json(&[], 50))) {
        Outcome::Done(_) => {},
        other => panic!("expected the collection to finish, got {:?}", other),
    }
}

fn pixiv_meta_json(title: &str) -> Json {
    obj(vec![("body", obj(vec![("title", s(title))]))])
}

fn pixiv_pages_json(urls: &[&str]) -> Json {
    let items: Vec<Json> = urls
        .iter()
        .map(|u| obj(vec![("urls", obj(vec![("original", s(u))]))]))
        .collect();
    obj(vec![("body", Json::Arr(items))])
}

#[test]
fn pixiv_post_resolution() {
    let mut px = pixiv::Pixiv::with_pid("92386069".to_string());
    let req = px.start();
    assert_eq!(req.url().as_str(), "https://www.pixiv.net/ajax/illust/92386069");
    let req = expect_next(px.on_response(Response::Json(pixiv_meta_json("piece"))));
    assert_eq!(
        req.url().as_str(),
        "https://www.pixiv.net/ajax/illust/92386069/pages"
    );
    match px.on_response(Response::Json(pixiv_pages_json(&["https://img/1", "https://img/2"]))) {
        Outcome::Done(p) => {
            assert_eq!(p.title(), "piece");
            assert_eq!(p.raws().len(), 1);
            assert_eq!(p.raws()[0].title.as_str(), "piece");
            assert_eq!(p.raws()[0].tracks.len(), 2);
            assert!(
                matches!(&p.raws()[0].tracks[0], Track::Image(u) if u.as_str() == "https://img/1")
            );
            assert!(
                matches!(&p.raws()[0].tracks[1], Track::Image(u) if u.as_str() == "https://img/2")
            );
        },
        other => panic!("expected a playlist, got {:?}", other),
    }
}

#[test]
fn collection_resolves_members_in_order() {
    let mut col = pixiv::Collection::with_uid("9".to_string());
    col.start();
    let req = expect_next(col.on_response(Response::Json(bookmarks_page_json(&["11", "12"], 2))));
    assert_eq!(req.url().as_str(), "https://www.pixiv.net/ajax/illust/11");
    let req = expect_next(col.on_response(Response::Json(pixiv_meta_json("one"))));
    assert_eq!(req.url().as_str(), "https://www.pixiv.net/ajax/illust/11/pages");
    let req = expect_next(col.on_response(Response::Json(pixiv_pages_json(&["https://img/a"]))));
    assert_eq!(req.url().as_str(), "https://www.pixiv.net/ajax/illust/12");
    expect_next(col.on_response(Response::Json(pixiv_meta_json("two"))));
    match col.on_response(Response::Json(pixiv_pages_json(&["https://img/b"]))) {
        Outcome::Done(p) => {
            assert_eq!(p.raws().len(), 2);
            assert_eq!(p.raws()[0].title.as_str(), "one");
            assert_eq!(p.raws()[1].title.as_str(), "two");
        },
        other => panic!("expected two origins, got {:?}", other),
    }
}

#[test]
fn weibo_replay_resolution() {
    let url = "https://weibo.com/l/wblive/p/show/1022:2321325059232667665490";
    let mut live = weibo::Live::new(url).unwrap();
    let req = live.start();
    assert_eq!(
        req.url().as_str(),
        "https://weibo.com/l/!/2/wblive/room/show_pc_live.json?live_id=1022:2321325059232667665490"
    );
    let info = obj(vec![(
        "data",
        obj(vec![
            ("replay_origin_url", s("https://replay/list.m3u8")),
            ("title", s("show")),
        ]),
    )]);
    let req = expect_next(live.on_response(Response::Json(info)));
    match &req {
        Request::GetText { url } => assert_eq!(url.as_str(), "https://replay/list.m3u8"),
        other => panic!("expected a text fetch, got {:?}", other),
    }
    let playlist_text = "#EXTM3U\nseg1.ts\r\nseg2.ts".to_string();
    match live.on_response(Response::Text(playlist_text)) {
        Outcome::Done(p) => {
            assert_eq!(p.title(), "show");
            let tracks = &p.raws()[0].tracks;
            assert_eq!(tracks.len(), 2);
            assert!(
                matches!(&tracks[0], Track::Video(u) if u.as_str() == "https://live.video.weibocdn.com/seg1.ts")
            );
            assert!(
                matches!(&tracks[1], Track::Video(u) if u.as_str() == "https://live.video.weibocdn.com/seg2.ts")
            );
        },
        other => panic!("expected a playlist, got {:?}", other),
    }
}

#[test]
fn dispatcher_classifies_hosts() {
    let r = choose_extractor("https://www.bilibili.com/video/av54592589/");
    assert!(matches!(r, Ok(Resolver::Video(_))));
    let r = choose_extractor("https://www.bilibili.com/bangumi/play/ep28251");
    assert!(matches!(r, Ok(Resolver::Bangumi(_))));
    let r = choose_extractor("https://live.bilibili.com/92613");
    assert!(matches!(r, Ok(Resolver::BiliLive(_))));
    let r = choose_extractor("https://music.163.com/#/song?id=1458308282");
    assert!(matches!(r, Ok(Resolver::Song(_))));
    let r = choose_extractor("https://music.163.com/#/playlist?id=406607901");
    assert!(matches!(r, Ok(Resolver::PlayList(_))));
    let r = choose_extractor("https://www.pixiv.net/artworks/92386069");
    assert!(matches!(r, Ok(Resolver::Pixiv(_))));
    // the substring rule sends anything naming a single post to the
    // single-post resolver; only URLs without it reach the collection
    let r = choose_extractor("https://www.pixiv.net/en/users/9930392/bookmarks");
    assert!(matches!(r, Ok(Resolver::Collection(_))));
}

#[test]
fn dispatcher_rejects_unknown_input() {
    assert!(matches!(
        choose_extractor("https://example.com/av1"),
        Err(Error::InvalidUrl { .. })
    ));
    assert!(matches!(
        choose_extractor("not a url at all"),
        Err(Error::ParseUrlError { .. })
    ));
    // a known host whose path names no identifier is rejected too
    assert!(matches!(
        choose_extractor("https://www.bilibili.com/bangumi/play/zz42"),
        Err(Error::InvalidUrl { .. })
    ));
}

#[test]
fn constructors_read_urls() {
    let v = bilibili::Video::new("https://www.bilibili.com/video/av54592589/?p=2").unwrap();
    drop(v);
    assert!(matches!(
        bilibili::Video::new("https://www.bilibili.com/bangumi/play/ep28251"),
        Err(Error::InvalidUrl { .. })
    ));
    let s = netease_music::Song::new("https://music.163.com/#/song?id=1458308282").unwrap();
    drop(s);
    assert!(matches!(
        netease_music::Song::new("https://music.163.com/"),
        Err(Error::InvalidUrl { .. })
    ));
    let p = pixiv::Pixiv::new("https://www.pixiv.net/artworks/92386069/").unwrap();
    drop(p);
    let c = pixiv::Collection::new("https://www.pixiv.net/en/users/9930392/bookmarks/artworks")
        .unwrap();
    drop(c);
    assert!(matches!(
        pixiv::Collection::new("https://www.pixiv.net/short"),
        Err(Error::InvalidUrl { .. })
    ));
}

#[test]
fn bangumi_full_resolution() {
    let season = obj(vec![(
        "result",
        obj(vec![(
            "episodes",
            Json::Arr(vec![obj(vec![
                ("id", Json::Int(1)),
                ("aid", Json::Int(7)),
                ("cid", Json::Int(70)),
            ])]),
        )]),
    )]);
    let mut b = bilibili::Bangumi::with_id(bilibili::Id::Ss(5051));
    let req = b.start();
    assert_eq!(
        req.url().as_str(),
        "https://api.bilibili.com/pgc/view/web/season?season_id=5051"
    );
    expect_next(b.on_response(Response::Json(season)));
    expect_next(b.on_response(Response::Json(split_manifest_json())));
    match b.on_response(Response::Json(title_json("movie"))) {
        Outcome::Done(p) => {
            assert_eq!(p.title(), "movie");
            assert_eq!(p.raws().len(), 1);
            // an episode origin carries no part label
            assert_eq!(p.raws()[0].title.as_str(), "");
            assert_eq!(p.raws()[0].tracks.len(), 2);
        },
        other => panic!("expected a playlist, got {:?}", other),
    }
}

#[test]
fn pixiv_network_failure_carries_url() {
    let mut px = pixiv::Pixiv::with_pid("5".to_string());
    px.start();
    match px.on_response(Response::Failed) {
        Outcome::Failed(Error::NetworkError { url }) => {
            assert_eq!(url.as_str(), "https://www.pixiv.net/ajax/illust/5");
        },
        other => panic!("expected a network failure, got {:?}", other),
    }
}

#[test]
fn song_network_failure_carries_url() {
    let mut song = netease_music::Song::with_id(3);
    song.start();
    match song.on_response(Response::Failed) {
        Outcome::Failed(Error::NetworkError { url }) => {
            assert_eq!(
                url.as_str(),
                "https://music.163.com/api/song/enhance/player/url"
            );
        },
        other => panic!("expected a network failure, got {:?}", other),
    }
}

#[test]
fn song_title_failures_are_swallowed() {
    // the title is best-effort: a failed detail lookup yields the empty title
    let mut song = netease_music::Song::with_id(4);
    song.start();
    expect_next(song.on_response(Response::Json(song_url_json("https://music/t"))));
    match song.on_response(Response::Failed) {
        Outcome::Done(p) => {
            assert_eq!(p.title(), "");
            assert!(
                matches!(&p.raws()[0].tracks[0], Track::Audio(u) if u.as_str() == "https://music/t")
            );
        },
        other => panic!("expected a playlist with an empty title, got {:?}", other),
    }
    // an unusable detail shape is swallowed the same way
    let mut song = netease_music::Song::with_id(5);
    song.start();
    expect_next(song.on_response(Response::Json(song_url_json("https://music/t"))));
    match song.on_response(Response::Json(obj(vec![("songs", Json::Null)]))) {
        Outcome::Done(p) => assert_eq!(p.title(), ""),
        other => panic!("expected a playlist with an empty title, got {:?}", other),
    }
}

#[test]
fn song_resolution_idempotent() {
    let run = || {
        let mut song = netease_music::Song::with_id(6);
        song.start();
        expect_next(song.on_response(Response::Json(song_url_json("https://music/t"))));
        match song.on_response(Response::Json(obj(vec![(
            "songs",
            Json::Arr(vec![obj(vec![("name", s("tune")), ("artists", Json::Arr(vec![]))])]),
        )]))) {
            Outcome::Done(p) => p,
            other => panic!("expected a playlist, got {:?}", other),
        }
    };
    let p1 = run();
    let p2 = run();
    assert!(p1 == p2);
}

#[test]
fn live_title_failures_are_swallowed() {
    let mut l = bilibili::Live::with_id(1);
    l.start();
    let room = obj(vec![(
        "data",
        obj(vec![("room_id", Json::Int(42)), ("uid", Json::Int(77))]),
    )]);
    expect_next(l.on_response(Response::Json(room)));
    let stream = obj(vec![(
        "data",
        obj(vec![(
            "durl",
            Json::Arr(vec![obj(vec![("url", s("https://live/flv"))])]),
        )]),
    )]);
    expect_next(l.on_response(Response::Json(stream)));
    match l.on_response(Response::Failed) {
        Outcome::Done(p) => {
            assert_eq!(p.title(), "");
            assert_eq!(p.raws().len(), 1);
            assert_eq!(p.raws()[0].tracks.len(), 1);
        },
        other => panic!("expected a playlist with an empty title, got {:?}", other),
    }
}

fn restricted_body() -> Json {
    obj(vec![("error", Json::Bool(true)), ("message", s("restricted"))])
}

#[test]
fn pixiv_restricted_item_is_permission_denied() {
    let mut px = pixiv::Pixiv::with_pid("8".to_string());
    px.start();
    match px.on_response(Response::Json(restricted_body())) {
        Outcome::Failed(Error::PermissionDenied { .. }) => {},
        other => panic!("expected a permission refusal, got {:?}", other),
    }
}

#[test]
fn pixiv_empty_pages_body_rejected() {
    // an origin always holds a track: a post without pages is a shape failure
    let mut px = pixiv::Pixiv::with_pid("9".to_string());
    px.start();
    expect_next(px.on_response(Response::Json(pixiv_meta_json("empty"))));
    match px.on_response(Response::Json(pixiv_pages_json(&[]))) {
        Outcome::Failed(Error::InvalidResponse { .. }) => {},
        other => panic!("expected a shape failure, got {:?}", other),
    }
}

#[test]
fn collection_skips_restricted_members() {
    // one permission-restricted member among healthy ones is excluded, not fatal
    let mut col = pixiv::Collection::with_uid("9".to_string());
    col.start();
    let req = expect_next(col.on_response(Response::Json(bookmarks_page_json(&["21", "22"], 2))));
    assert_eq!(req.url().as_str(), "https://www.pixiv.net/ajax/illust/21");
    let req = expect_next(col.on_response(Response::Json(restricted_body())));
    assert_eq!(req.url().as_str(), "https://www.pixiv.net/ajax/illust/22");
    expect_next(col.on_response(Response::Json(pixiv_meta_json("kept"))));
    match col.on_response(Response::Json(pixiv_pages_json(&["https://img/k"]))) {
        Outcome::Done(p) => {
            assert_eq!(p.raws().len(), 1);
            assert_eq!(p.raws()[0].title.as_str(), "kept");
        },
        other => panic!("expected the restricted member to be skipped, got {:?}", other),
    }
}

#[test]
fn collection_other_member_failures_abort() {
    let mut col = pixiv::Collection::with_uid("9".to_string());
    col.start();
    expect_next(col.on_response(Response::Json(bookmarks_page_json(&["31"], 1))));
    match col.on_response(Response::Failed) {
        Outcome::Failed(Error::NetworkError { url }) => {
            assert_eq!(url.as_str(), "https://www.pixiv.net/ajax/illust/31");
        },
        other => panic!("expected the member failure to surface, got {:?}", other),
    }
}

#[test]
fn weibo_tagless_playlist_rejected() {
    // a replay playlist with no media line yields no origin: shape failure
    let mut live =
        weibo::Live::new("https://weibo.com/l/wblive/p/show/1022:1").unwrap();
    live.start();
    let info = obj(vec![(
        "data",
        obj(vec![
            ("replay_origin_url", s("https://replay/list.m3u8")),
            ("title", s("show")),
        ]),
    )]);
    expect_next(live.on_response(Response::Json(info)));
    match live.on_response(Response::Text("#EXTM3U\n#EXT-X-ENDLIST".to_string())) {
        Outcome::Failed(Error::InvalidResponse { .. }) => {},
        other => panic!("expected a shape failure, got {:?}", other),
    }
}
