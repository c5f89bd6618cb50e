use teleemix::http::{Body, Method, Reply};
use teleemix::json::{parse, Json};
use teleemix::mediaserver::{
    agree, pick_match, plex_rating_key, read_identifier, read_music_section, Call, Connecting,
    Finding, MediaServer, ServerSession,
};

fn vars(list: &[(&str, &str)]) -> Vec<(String, String)> {
    list.iter().map(|(a, b)| (a.to_string(), b.to_string())).collect()
}

fn reply(status: u16, text: &str) -> Reply {
    Reply::Answered {
        status,
        reason: format!("{} Reason", status),
        body: Ok(text.as_bytes().to_vec()),
    }
}

fn call(method: Method, path: &str, query: &[(&str, &str)], json: bool) -> Call {
    Call { method, path: path.to_string(), query: vars(query), body: Body::Empty, json }
}

fn plex() -> MediaServer {
    MediaServer::Plex { url: "http://p".to_string(), token: "tok".to_string() }
}

fn jellyfin() -> MediaServer {
    MediaServer::Jellyfin {
        url: "http://j".to_string(),
        api_key: "key".to_string(),
        user_id: "uid".to_string(),
    }
}

fn navidrome() -> MediaServer {
    MediaServer::Navidrome {
        url: "http://n".to_string(),
        user: "ann".to_string(),
        password: "sesame".to_string(),
    }
}

fn ready(server: &MediaServer) -> ServerSession {
    match server.connect() {
        Connecting::Ready(session) => session,
        Connecting::Identify(_) => panic!("only Plex is asked"),
    }
}

const SECTIONS: &str = "{\"MediaContainer\":{\"Directory\":[\
    {\"type\":\"movie\",\"key\":\"1\"},\
    {\"type\":\"artist\",\"key\":\"4\",\"refreshing\":true},\
    {\"type\":\"artist\",\"key\":\"5\"}]}}";

fn plex_session() -> ServerSession {
    let identity = "{\"MediaContainer\":{\"machineIdentifier\":\"m1\"}}";
    let (machine, _) = plex().connect_identity(&reply(200, identity)).unwrap();
    plex().connect_sections(machine, &reply(200, SECTIONS)).ok().unwrap()
}

fn subsonic(inner: &str) -> Reply {
    reply(200, &format!("{{\"subsonic-response\":{{\"status\":\"ok\"{}}}}}", inner))
}

#[test]
fn servers_are_configured_by_the_environment() {
    assert_eq!(MediaServer::from_env(&vars(&[])), None);
    assert_eq!(MediaServer::from_env(&vars(&[("MEDIA_SERVER", "none")])), None);
    assert_eq!(MediaServer::from_env(&vars(&[("MEDIA_SERVER", "emby")])), None);
    assert_eq!(
        MediaServer::from_env(&vars(&[
            ("MEDIA_SERVER", " PLEX "),
            ("PLEX_URL", " http://p// "),
            ("PLEX_TOKEN", "tok"),
        ])),
        Some(plex())
    );
    assert_eq!(
        MediaServer::from_env(&vars(&[("MEDIA_SERVER", "plex"), ("PLEX_URL", "http://p")])),
        None
    );
    assert_eq!(
        MediaServer::from_env(&vars(&[
            ("MEDIA_SERVER", "jellyfin"),
            ("JELLYFIN_URL", "http://j/"),
            ("JELLYFIN_API_KEY", "key"),
            ("JELLYFIN_USER_ID", "uid"),
        ])),
        Some(jellyfin())
    );
    for kind in ["navidrome", "Subsonic"] {
        assert_eq!(
            MediaServer::from_env(&vars(&[
                ("MEDIA_SERVER", kind),
                ("NAVIDROME_URL", "http://n"),
                ("NAVIDROME_USER", "ann"),
                ("NAVIDROME_PASSWORD", "sesame"),
            ])),
            Some(navidrome())
        );
    }
}

#[test]
fn servers_have_labels() {
    assert_eq!(plex().label(), "Plex");
    assert_eq!(jellyfin().label(), "Jellyfin");
    assert_eq!(navidrome().label(), "Navidrome");
    assert_eq!(plex().copy(), plex());
}

#[test]
fn calls_are_let_in() {
    let c = || call(Method::Get, "/x", &[("a", "b")], true);
    let p = plex().request(c(), 0);
    assert_eq!(p.url, "http://p/x");
    assert_eq!(p.headers, vars(&[("Accept", "application/json")]));
    assert_eq!(p.query, vars(&[("X-Plex-Token", "tok"), ("a", "b")]));
    assert!(plex().request(call(Method::Get, "/x", &[], false), 0).headers.is_empty());
    let j = jellyfin().request(c(), 0);
    assert_eq!(j.headers, vars(&[("X-Emby-Token", "key")]));
    assert_eq!(j.query, vars(&[("a", "b")]));
}

#[test]
fn subsonic_calls_carry_a_salted_token() {
    // The salt c19b2d and its token are the example of the Subsonic API documentation.
    let r = navidrome().request(call(Method::Get, "/rest/ping", &[("a", "b")], true), 0xc19b2d);
    assert_eq!(r.url, "http://n/rest/ping");
    assert_eq!(
        r.query,
        vars(&[
            ("u", "ann"),
            ("t", "26719a1196d2a940705a59634eb18eab"),
            ("s", "c19b2d"),
            ("v", "1.16.1"),
            ("c", "teleemix"),
            ("f", "json"),
            ("a", "b"),
        ])
    );
}

#[test]
fn answers_count_only_where_they_went_well() {
    assert!(plex().read_answer(&reply(200, "{}")).is_some());
    assert!(plex().read_answer(&reply(401, "{}")).is_none());
    assert!(plex().read_answer(&reply(200, "<xml/>")).is_none());
    assert!(jellyfin().read_answer(&reply(500, "{}")).is_some());
    assert!(navidrome().read_answer(&subsonic("")).is_some());
    assert!(navidrome()
        .read_answer(&reply(200, "{\"subsonic-response\":{\"status\":\"failed\"}}"))
        .is_none());
    assert!(navidrome().read_answer(&Reply::Unreachable("x".to_string())).is_none());
}

#[test]
fn plex_tells_who_it_is() {
    match plex().connect() {
        Connecting::Identify(c) => assert_eq!(c, call(Method::Get, "/identity", &[], true)),
        Connecting::Ready(_) => panic!("Plex is asked"),
    }
    let identity = reply(200, "{\"MediaContainer\":{\"machineIdentifier\":\"m1\"}}");
    let (machine, next) = plex().connect_identity(&identity).unwrap();
    assert_eq!(machine, "m1");
    assert_eq!(next, call(Method::Get, "/library/sections", &[], true));
    assert_eq!(
        plex().connect_identity(&reply(500, "{}")),
        Err("Plex unreachable (GET /identity failed)".to_string())
    );
    assert_eq!(
        plex().connect_identity(&reply(200, "{}")),
        Err("Plex /identity returned no machineIdentifier".to_string())
    );
    assert_eq!(read_identifier(&Json::Null).is_err(), true);
}

#[test]
fn plex_needs_a_music_section() {
    let section = |text: &str| match plex().connect_sections("m".to_string(), &reply(200, text)) {
        Ok(_) => None,
        Err(e) => Some(e),
    };
    assert_eq!(section(SECTIONS), None);
    let none = Some("No music library found on the Plex server".to_string());
    assert_eq!(section("{}"), none);
    assert_eq!(
        section("{\"MediaContainer\":{\"Directory\":[{\"type\":\"artist\"},{\"type\":\"artist\",\"key\":\"2\"}]}}"),
        none
    );
    assert!(match plex().connect_sections("m".to_string(), &reply(503, SECTIONS)) {
        Ok(_) => false,
        Err(e) => e == "Plex GET /library/sections failed",
    });
    assert_eq!(read_music_section(&parse(SECTIONS.as_bytes()).unwrap()), Ok("4".to_string()));
}

#[test]
fn scans_are_started_and_asked_for() {
    let p = plex_session();
    assert_eq!(p.trigger_scan(), call(Method::Get, "/library/sections/4/refresh", &[], false));
    assert_eq!(p.scan_in_progress(), Some(call(Method::Get, "/library/sections", &[], true)));
    assert!(p.scan_reply(&reply(200, SECTIONS)));
    assert!(!p.scan_reply(&reply(200, "{\"MediaContainer\":{\"Directory\":[{\"key\":\"5\",\"refreshing\":true}]}}")));
    assert!(!p.scan_reply(&reply(500, SECTIONS)));
    let j = ready(&jellyfin());
    assert_eq!(j.trigger_scan(), call(Method::Post, "/Library/Refresh", &[], false));
    assert_eq!(j.scan_in_progress(), None);
    let n = ready(&navidrome());
    assert_eq!(n.trigger_scan(), call(Method::Get, "/rest/startScan", &[], true));
    assert_eq!(n.scan_in_progress(), Some(call(Method::Get, "/rest/getScanStatus", &[], true)));
    assert!(n.scan_reply(&subsonic(",\"scanStatus\":{\"scanning\":true}")));
    assert!(!n.scan_reply(&subsonic(",\"scanStatus\":{\"scanning\":false}")));
    assert!(!n.scan_reply(&subsonic("")));
}

#[test]
fn a_matching_artist_is_preferred() {
    let credits = vec!["Cover Band".to_string(), "DAFT PUNK feat. X".to_string()];
    assert_eq!(pick_match(&credits, "Daft Punk"), Some(1));
    assert_eq!(pick_match(&credits, "Nobody"), Some(0));
    assert_eq!(pick_match(&credits, ""), Some(0));
    assert_eq!(pick_match(&Vec::new(), "Daft Punk"), None);
    let short = vec![" ".to_string(), " Punk ".to_string()];
    assert_eq!(pick_match(&short, "Daft Punk"), Some(1));
    assert_eq!(pick_match(&vec!["x".to_string(), "ÉTOILE".to_string()], "étoile"), Some(1));
    assert!(agree("daft punk", "daft"));
    assert!(agree(" daft ", "daft punk"));
    assert!(!agree("  ", "daft punk"));
}

#[test]
fn plex_keys_are_texts_or_numbers() {
    assert_eq!(plex_rating_key(&parse(b"{\"ratingKey\":\"12\"}").unwrap()), Some("12".to_string()));
    assert_eq!(plex_rating_key(&parse(b"{\"ratingKey\":12}").unwrap()), Some("12".to_string()));
    assert_eq!(plex_rating_key(&parse(b"{\"ratingKey\":-1}").unwrap()), None);
    assert_eq!(plex_rating_key(&Json::Null), None);
}

#[test]
fn plex_finds_tracks() {
    let p = plex_session();
    assert_eq!(
        p.find_track("Aerodynamic", "Daft Punk"),
        call(Method::Get, "/library/sections/4/all", &[("type", "10"), ("title", "Aerodynamic")], true)
    );
    let found = "{\"MediaContainer\":{\"Metadata\":[\
        {\"ratingKey\":1,\"grandparentTitle\":\"Various\",\"originalTitle\":\"Daft Punk\"},\
        {\"ratingKey\":2,\"grandparentTitle\":\"Daft Punk\"}]}}";
    let settled = |artist: &str, text: &str| p.find_track_reply("t", artist, false, &reply(200, text));
    assert_eq!(settled("Daft Punk", found), Finding::Settled(Some("1".to_string())));
    assert_eq!(settled("Daft Punk Official", found), Finding::Settled(Some("2".to_string())));
    assert_eq!(settled("Nobody", found), Finding::Settled(Some("1".to_string())));
    assert_eq!(settled("x", "{}"), Finding::Settled(None));
    assert_eq!(
        p.find_track_reply("t", "x", false, &reply(404, found)),
        Finding::Settled(None)
    );
}

#[test]
fn jellyfin_finds_tracks() {
    let j = ready(&jellyfin());
    assert_eq!(
        j.find_track("T", "A"),
        call(
            Method::Get,
            "/Items",
            &[
                ("IncludeItemTypes", "Audio"),
                ("Recursive", "true"),
                ("SearchTerm", "T"),
                ("Limit", "10"),
                ("UserId", "uid"),
            ],
            true
        )
    );
    let found = "{\"Items\":[{\"Id\":\"i1\",\"Artists\":[\"B\",7,\"C\"]},{\"Id\":\"i2\",\"AlbumArtist\":\"A Band\"}]}";
    assert_eq!(
        j.find_track_reply("T", "a band", false, &reply(200, found)),
        Finding::Settled(Some("i2".to_string()))
    );
    assert_eq!(
        j.find_track_reply("T", "b c", false, &reply(200, found)),
        Finding::Settled(Some("i1".to_string()))
    );
}

#[test]
fn navidrome_searches_twice_at_most() {
    let n = ready(&navidrome());
    let asks = |q: &str| {
        call(
            Method::Get,
            "/rest/search3",
            &[("query", q), ("songCount", "10"), ("artistCount", "0"), ("albumCount", "0")],
            true,
        )
    };
    assert_eq!(n.find_track("T", "A"), asks("T A"));
    assert_eq!(n.find_track("T", ""), asks("T"));
    let empty = subsonic(",\"searchResult3\":{}");
    assert_eq!(n.find_track_reply("T", "A", false, &empty), Finding::SearchAgain(asks("T")));
    assert_eq!(n.find_track_reply("T", "A", true, &empty), Finding::Settled(None));
    assert_eq!(n.find_track_reply("T", "", false, &empty), Finding::Settled(None));
    let found = subsonic(",\"searchResult3\":{\"song\":[{\"id\":\"s1\",\"artist\":\"A\"}]}");
    assert_eq!(
        n.find_track_reply("T", "A", false, &found),
        Finding::Settled(Some("s1".to_string()))
    );
}

#[test]
fn plex_playlists_are_rebuilt() {
    let p = plex_session();
    let ids = vec!["7".to_string(), "8".to_string()];
    assert_eq!(
        p.rebuild_playlist("Mix"),
        call(Method::Get, "/playlists", &[("playlistType", "audio")], true)
    );
    let listing = reply(
        200,
        "{\"MediaContainer\":{\"Metadata\":[{\"title\":\"mix\",\"ratingKey\":3},{\"title\":\"Other\",\"ratingKey\":4},{\"title\":\"MIX\"}]}}",
    );
    let plan = p.rebuild_plan("Mix", &ids, &listing);
    assert_eq!(plan.len(), 2);
    assert_eq!(plan[0], call(Method::Delete, "/playlists/3", &[], false));
    assert_eq!(
        plan[1],
        call(
            Method::Post,
            "/playlists",
            &[
                ("type", "audio"),
                ("title", "Mix"),
                ("smart", "0"),
                ("uri", "server://m1/com.plexapp.plugins.library/library/metadata/7,8"),
            ],
            false
        )
    );
    assert_eq!(p.rebuild_reply(&reply(200, "")), Ok(()));
    let rejected = Err("Plex rejected the playlist creation".to_string());
    assert_eq!(p.rebuild_reply(&reply(400, "")), rejected);
    assert_eq!(p.rebuild_reply(&Reply::Unreachable("x".to_string())), rejected);
}

#[test]
fn jellyfin_playlists_are_rebuilt() {
    let j = ready(&jellyfin());
    let ids = vec!["a".to_string()];
    let plan = j.rebuild_plan("Mix", &ids, &reply(200, "{\"Items\":[{\"Name\":\"MIX\",\"Id\":\"old\"}]}"));
    assert_eq!(plan[0], call(Method::Delete, "/Items/old", &[], false));
    assert_eq!(plan[1].method, Method::Post);
    assert_eq!(plan[1].path, "/Playlists");
    let text = |s: &str| Json::Text(s.to_string());
    assert_eq!(
        plan[1].body,
        Body::Json(Json::Object(vec![
            ("Name".to_string(), text("Mix")),
            ("Ids".to_string(), Json::Array(vec![text("a")])),
            ("UserId".to_string(), text("uid")),
            ("MediaType".to_string(), text("Audio")),
        ]))
    );
    assert_eq!(j.rebuild_reply(&reply(204, "")), Ok(()));
    assert_eq!(
        j.rebuild_reply(&reply(403, "")),
        Err("Jellyfin rejected the playlist creation: 403 Reason".to_string())
    );
    assert_eq!(
        j.rebuild_reply(&Reply::Unreachable("gone".to_string())),
        Err("gone".to_string())
    );
    assert_eq!(j.rebuild_playlist("Mix").path, "/Items");
}

#[test]
fn navidrome_playlists_are_rebuilt() {
    let n = ready(&navidrome());
    let ids = vec!["s1".to_string(), "s2".to_string()];
    assert_eq!(n.rebuild_playlist("Mix"), call(Method::Get, "/rest/getPlaylists", &[], true));
    let listing = subsonic(",\"playlists\":{\"playlist\":[{\"name\":\"Mix\",\"id\":\"p1\"},{\"name\":\"mix\",\"id\":\"p2\"}]}");
    let plan = n.rebuild_plan("Mix", &ids, &listing);
    assert_eq!(
        plan,
        vec![
            call(Method::Get, "/rest/deletePlaylist", &[("id", "p1")], true),
            call(Method::Get, "/rest/deletePlaylist", &[("id", "p2")], true),
            call(
                Method::Get,
                "/rest/createPlaylist",
                &[("name", "Mix"), ("songId", "s1"), ("songId", "s2")],
                true
            ),
        ]
    );
    assert_eq!(n.rebuild_plan("Mix", &ids, &reply(500, "")).len(), 1);
    assert_eq!(n.rebuild_reply(&subsonic("")), Ok(()));
    assert_eq!(
        n.rebuild_reply(&reply(200, "{}")),
        Err("Navidrome rejected the playlist creation".to_string())
    );
}
