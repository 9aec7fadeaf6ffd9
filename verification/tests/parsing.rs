use finata::json::Json;
use finata::text;
use finata::website::bilibili::{normalize_manifest, Id};
use finata::{Track};

fn obj(fields: Vec<(&str, Json)>) -> Json {
    Json::Obj(fields.into_iter().map(|(k, v)| (k.to_string(), v)).collect())
}

fn s(v: &str) -> Json {
    Json::Str(v.to_string())
}

#[test]
fn parse_u64_plain() {
    assert_eq!(text::parse_u64("0"), Some(0));
    assert_eq!(text::parse_u64("54592589"), Some(54592589));
    assert_eq!(text::parse_u64("18446744073709551615"), Some(u64::MAX));
}

#[test]
fn parse_u64_rejects() {
    assert_eq!(text::parse_u64(""), None);
    assert_eq!(text::parse_u64("12a"), None);
    assert_eq!(text::parse_u64("-1"), None);
    assert_eq!(text::parse_u64("18446744073709551616"), None);
}

#[test]
fn u64_to_string_digits() {
    assert_eq!(text::u64_to_string(0).as_str(), "0");
    assert_eq!(text::u64_to_string(7).as_str(), "7");
    assert_eq!(text::u64_to_string(54592589).as_str(), "54592589");
}

#[test]
fn prefix_and_suffix_stripping() {
    assert!(text::str_has_prefix("av123", "av"));
    assert!(!text::str_has_prefix("a123", "av"));
    assert_eq!(text::str_strip_all_prefix("avav123", "av"), "123");
    assert_eq!(text::str_strip_all_suffix("123///", "/"), "123");
    assert_eq!(text::str_strip_all_suffix("123", "/"), "123");
}

#[test]
fn substring_search() {
    assert!(text::str_contains("https://www.bilibili.com/video/av1", "av"));
    assert!(!text::str_contains("https://example.com/", "av"));
    assert!(text::str_contains("abc", ""));
}

#[test]
fn identifier_prefixes_parse() {
    assert!(matches!(Id::new("av54592589"), Some(Id::Av(54592589))));
    assert!(matches!(Id::new("ep28251"), Some(Id::Ep(28251))));
    assert!(matches!(Id::new("ss1512"), Some(Id::Ss(1512))));
    match Id::new("BV1L4411M7sC") {
        Some(Id::Bv(code)) => assert_eq!(code.as_str(), "BV1L4411M7sC"),
        other => panic!("expected an opaque code, got {:?}", other),
    }
}

#[test]
fn identifier_unrecognized_prefix_rejected() {
    assert!(Id::new("xy123").is_none());
    assert!(Id::new("123").is_none());
    assert!(Id::new("").is_none());
    // a numeric prefix with no digits left is rejected too
    assert!(Id::new("av").is_none());
    assert!(Id::new("epx").is_none());
}

#[test]
fn identifier_repeated_prefix_stripped() {
    // repeated prefixes are stripped as trim_start_matches strips them
    assert!(matches!(Id::new("avav123"), Some(Id::Av(123))));
}

#[test]
fn json_navigation() {
    let j = obj(vec![
        ("data", obj(vec![("cid", Json::Int(999)), ("title", s("t"))])),
        ("arr", Json::Arr(vec![Json::Int(1), Json::Int(-2)])),
    ]);
    let data = j.get("data").unwrap();
    assert_eq!(data.get("cid").unwrap().u64_of(), Some(999));
    assert_eq!(data.get("title").unwrap().str_of().unwrap().as_str(), "t");
    assert!(j.get("missing").is_none());
    let arr = j.get("arr").unwrap();
    assert_eq!(arr.at(0).unwrap().u64_of(), Some(1));
    assert_eq!(arr.at(1).unwrap().u64_of(), None);
    assert_eq!(arr.at(1).unwrap().i64_of(), Some(-2));
    assert!(arr.at(2).is_none());
}

fn split_manifest(video_url: Option<&str>, audio_url: Option<&str>) -> Json {
    let mut dash: Vec<(&str, Json)> = Vec::new();
    if let Some(u) = video_url {
        dash.push(("video", Json::Arr(vec![obj(vec![("baseUrl", s(u))])])));
    }
    if let Some(u) = audio_url {
        dash.push(("audio", Json::Arr(vec![obj(vec![("baseUrl", s(u))])])));
    }
    obj(vec![("data", obj(vec![("dash", obj(dash))]))])
}

#[test]
fn manifest_split_shape_both_kinds() {
    let m = split_manifest(Some("https://cdn/v"), Some("https://cdn/a"));
    let tracks = normalize_manifest(&m).unwrap();
    assert_eq!(tracks.len(), 2);
    assert!(matches!(&tracks[0], Track::Video(u) if u.as_str() == "https://cdn/v"));
    assert!(matches!(&tracks[1], Track::Audio(u) if u.as_str() == "https://cdn/a"));
}

#[test]
fn manifest_split_shape_single_kind() {
    let m = split_manifest(Some("https://cdn/v"), None);
    let tracks = normalize_manifest(&m).unwrap();
    assert_eq!(tracks.len(), 1);
    assert!(matches!(&tracks[0], Track::Video(u) if u.as_str() == "https://cdn/v"));

    let m = split_manifest(None, Some("https://cdn/a"));
    let tracks = normalize_manifest(&m).unwrap();
    assert_eq!(tracks.len(), 1);
    assert!(matches!(&tracks[0], Track::Audio(u) if u.as_str() == "https://cdn/a"));
}

#[test]
fn manifest_split_shape_picks_first_usable_url() {
    // the first array entry exposing a URL wins, not the last
    let dash = obj(vec![(
        "video",
        Json::Arr(vec![
            obj(vec![("id", Json::Int(1))]),
            obj(vec![("baseUrl", s("https://cdn/first"))]),
            obj(vec![("baseUrl", s("https://cdn/second"))]),
        ]),
    )]);
    let m = obj(vec![("data", obj(vec![("dash", dash)]))]);
    let tracks = normalize_manifest(&m).unwrap();
    assert_eq!(tracks.len(), 1);
    assert!(matches!(&tracks[0], Track::Video(u) if u.as_str() == "https://cdn/first"));
}

#[test]
fn manifest_combined_shape_keeps_source_order() {
    let durl = Json::Arr(vec![
        obj(vec![("url", s("https://cdn/1"))]),
        obj(vec![("url", s("https://cdn/2"))]),
        obj(vec![("url", s("https://cdn/3"))]),
    ]);
    let m = obj(vec![("data", obj(vec![("durl", durl)]))]);
    let tracks = normalize_manifest(&m).unwrap();
    assert_eq!(tracks.len(), 3);
    assert!(matches!(&tracks[0], Track::Video(u) if u.as_str() == "https://cdn/1"));
    assert!(matches!(&tracks[1], Track::Video(u) if u.as_str() == "https://cdn/2"));
    assert!(matches!(&tracks[2], Track::Video(u) if u.as_str() == "https://cdn/3"));
}

#[test]
fn manifest_fallback_prefers_split_shape() {
    let dash = obj(vec![(
        "video",
        Json::Arr(vec![obj(vec![("baseUrl", s("https://cdn/dash"))])]),
    )]);
    let durl = Json::Arr(vec![obj(vec![("url", s("https://cdn/durl"))])]);
    let m = obj(vec![("data", obj(vec![("dash", dash), ("durl", durl)]))]);
    let tracks = normalize_manifest(&m).unwrap();
    assert_eq!(tracks.len(), 1);
    assert!(matches!(&tracks[0], Track::Video(u) if u.as_str() == "https://cdn/dash"));
}

#[test]
fn manifest_unrecognized_shape_rejected() {
    let m = obj(vec![("data", obj(vec![("other", Json::Int(1))]))]);
    assert!(normalize_manifest(&m).is_none());
    // a combined-shape entry without a URL string spoils the whole shape
    let durl = Json::Arr(vec![
        obj(vec![("url", s("https://cdn/1"))]),
        obj(vec![("order", Json::Int(2))]),
    ]);
    let m = obj(vec![("data", obj(vec![("durl", durl)]))]);
    assert!(normalize_manifest(&m).is_none());
    // an empty combined-shape array matches nothing: an origin always
    // holds a track
    let m = obj(vec![("data", obj(vec![("durl", Json::Arr(vec![]))]))]);
    assert!(normalize_manifest(&m).is_none());
}

#[test]
fn cookie_joining() {
    let pairs = vec![
        ("a".to_string(), "1".to_string()),
        ("b".to_string(), "2".to_string()),
    ];
    assert_eq!(finata::client::join_cookies(&pairs).as_str(), "a=1;b=2;");
    assert_eq!(finata::client::join_cookies(&Vec::new()).as_str(), "");
}

#[test]
fn client_headers_accumulate() {
    let mut c = finata::client::Client::with_referer("https://www.bilibili.com");
    {
        let hs = c.headers();
        assert_eq!(hs.len(), 2);
        assert_eq!(hs[0].0.as_str(), "user-agent");
        assert_eq!(hs[0].1.as_str(), finata::client::UA);
        assert_eq!(hs[1].0.as_str(), "referer");
        assert_eq!(hs[1].1.as_str(), "https://www.bilibili.com");
    }
    c.push_cookie("k=v");
    let hs = c.headers();
    assert_eq!(hs.len(), 3);
    assert_eq!(hs[2].0.as_str(), "cookie");
    assert_eq!(hs[2].1.as_str(), "k=v");
}

#[test]
fn url_parts_decomposition() {
    let p = finata::urlinfo::parse_url_parts(
        "https://www.bilibili.com/video/av54592589/?p=2#frag",
    )
    .unwrap();
    assert_eq!(p.host.as_str(), "www.bilibili.com");
    let seg = p.last_nonempty_segment().unwrap();
    assert_eq!(seg.as_str(), "av54592589");
    assert_eq!(p.query_value("p").unwrap().as_str(), "2");
    assert!(p.query_value("q").is_none());
    assert_eq!(p.fragment.as_deref(), Some("frag"));
    assert!(finata::urlinfo::parse_url_parts("not a url").is_none());
}

#[test]
fn playlist_accessors() {
    let o = finata::Origin::new(
        vec![Track::Video("https://cdn/v".to_string())],
        "part".to_string(),
    );
    let p = finata::Playlist::new(vec![o], "title".to_string());
    assert_eq!(p.title(), "title");
    assert_eq!(p.raws().len(), 1);
    assert_eq!(p.raws()[0].title.as_str(), "part");
    assert_eq!(p.raws()[0].tracks[0].as_url().as_str(), "https://cdn/v");
    let (raws, title) = p.into_parts();
    assert_eq!(raws.len(), 1);
    assert_eq!(title.as_str(), "title");
    let p2 = finata::Playlist::new(raws, title);
    assert_eq!(p2.into_title().as_str(), "title");
}
