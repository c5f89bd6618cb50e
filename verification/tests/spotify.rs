use teleemix::http::{Method, Page, Reply};
use teleemix::json::{parse, Json};
use teleemix::spotify::{
    describe, embed_url, get_metadata_from_embed, get_title_from_oembed, read_metadata, resolve,
    resolve_embed, resolve_oembed, Resolving, SpotifyMeta,
};

fn page(text: &str) -> Page {
    Reply::Answered { status: 200, reason: "200 OK".to_string(), body: Ok(text.to_string()) }
}

fn reply(text: &str) -> Reply {
    Reply::Answered {
        status: 200,
        reason: "200 OK".to_string(),
        body: Ok(text.as_bytes().to_vec()),
    }
}

fn embed(entity: &str) -> Page {
    page(&format!(
        "<html><script id=\"__NEXT_DATA__\" type=\"application/json\">\
         {{\"props\":{{\"pageProps\":{{\"state\":{{\"data\":{{\"entity\":{}}}}}}}}}}}</script>",
        entity
    ))
}

fn meta(query: &str, label: &str) -> Option<SpotifyMeta> {
    Some(SpotifyMeta { query: query.to_string(), label: label.to_string() })
}

#[test]
fn embed_pages_have_their_address() {
    assert_eq!(
        embed_url("https://open.spotify.com/track/1?si=abc"),
        "https://open.spotify.com/embed/track/1?utm_source=oembed"
    );
    assert_eq!(
        embed_url("https://open.spotify.com/album/2"),
        "https://open.spotify.com/embed/album/2?utm_source=oembed"
    );
    assert_eq!(embed_url(""), "?utm_source=oembed");
    let r = resolve("https://open.spotify.com/track/1");
    assert_eq!(r.method, Method::Get);
    assert_eq!(r.url, "https://open.spotify.com/embed/track/1?utm_source=oembed");
    assert!(r.query.is_empty());
}

#[test]
fn embed_pages_give_title_and_artists() {
    let p = embed("{\"name\":\"One More Time\",\"artists\":[{\"name\":\"Daft Punk\"},{},{\"name\":\"X\"}]}");
    assert_eq!(
        get_metadata_from_embed(&p),
        ("One More Time".to_string(), "Daft Punk, X".to_string())
    );
    let nothing = (String::new(), String::new());
    assert_eq!(get_metadata_from_embed(&page("<html>")), nothing);
    assert_eq!(get_metadata_from_embed(&embed("{")), nothing);
    assert_eq!(get_metadata_from_embed(&Reply::Unreachable("x".to_string())), nothing);
    let value = parse(b"{\"props\":{\"pageProps\":{\"state\":{\"data\":{\"entity\":{\"name\":\"n\"}}}}}}")
        .unwrap();
    assert_eq!(read_metadata(&value), ("n".to_string(), String::new()));
    assert_eq!(read_metadata(&Json::Null), nothing);
}

#[test]
fn embed_pages_are_believed_first() {
    let p = embed("{\"name\":\"One More Time\",\"artists\":[{\"name\":\"Daft Punk\"}]}");
    match resolve_embed("u", &p) {
        Resolving::Known(m) => {
            assert_eq!(m, meta("One More Time Daft Punk", "One More Time — Daft Punk"))
        },
        Resolving::AskOembed { .. } => panic!("the page has a title"),
    }
}

#[test]
fn oembed_stands_in_for_a_title() {
    let p = embed("{\"artists\":[{\"name\":\"Air\"}]}");
    match resolve_embed("https://open.spotify.com/track/1", &p) {
        Resolving::Known(_) => panic!("the page has no title"),
        Resolving::AskOembed { request, artist } => {
            assert_eq!(request.url, "https://open.spotify.com/oembed");
            assert_eq!(
                request.query,
                vec![("url".to_string(), "https://open.spotify.com/track/1".to_string())]
            );
            assert_eq!(artist, "Air");
            assert_eq!(
                resolve_oembed(&artist, &reply("{\"title\": \"La femme d'argent\"}")),
                meta("La femme d'argent Air", "La femme d'argent — Air")
            );
        },
    }
    assert_eq!(resolve_oembed("", &reply("{\"title\": \"T\"}")), meta("T", "T"));
}

#[test]
fn links_without_title_stay_unresolved() {
    assert_eq!(resolve_oembed("Air", &reply("{}")), None);
    assert_eq!(resolve_oembed("Air", &reply("no json")), None);
    assert_eq!(get_title_from_oembed(&Reply::Unreachable("x".to_string())), "");
    assert_eq!(describe("", "Air"), None);
    assert_eq!(describe("T", " "), meta("T", "T —  "));
}
