use teleemix::deemix::{
    add_to_queue, add_to_queue_reply, get_queue, get_queue_reply, login, login_arl,
    login_arl_reply, queue_status_map, read_login, search, search_reply, QueueStatus, SearchKind,
};
use teleemix::http::{Body, Method, Reply};
use teleemix::json::{parse, Json};

fn answered(body: &str) -> Reply {
    Reply::Answered {
        status: 200,
        reason: "200 OK".to_string(),
        body: Ok(body.as_bytes().to_vec()),
    }
}

fn text(s: &str) -> Json {
    Json::Text(s.to_string())
}

#[test]
fn json_documents_are_read() {
    let j = parse(b" {\"a\": [1, -2, 2.5, true, null, \"x\"], \"b\": {\"c\": \"d\"}} ").unwrap();
    let list = j.at("a").as_array().unwrap();
    assert_eq!(list.len(), 6);
    assert_eq!((list[0].as_u64(), list[0].as_i64()), (Some(1), Some(1)));
    assert_eq!((list[1].as_u64(), list[1].as_i64()), (None, Some(-2)));
    assert_eq!((list[2].as_u64(), list[2].as_i64()), (None, None));
    assert!(list[3].is_true());
    assert!(list[4].is_null());
    assert_eq!(list[5].as_str(), Some("x"));
    assert_eq!(j.at("b").at("c").to_text(), Some("d".to_string()));
    assert!(j.at("missing").at("deeper").is_null());
    assert!(list[5].at("c").is_null());
    assert_eq!(j.as_object().unwrap().len(), 2);
}

#[test]
fn broken_documents_are_refused() {
    assert_eq!(parse(b"{").unwrap_err(), "EOF while parsing an object at line 1 column 1");
    assert!(parse(b"").is_err());
    assert!(parse(b"1 2").is_err());
    assert!(parse(b"\"\xff\"").is_err());
}

#[test]
fn login_asks_with_the_arl() {
    let r = login_arl("http://d:6595", "abc");
    assert_eq!(r.method, Method::Post);
    assert_eq!(r.url, "http://d:6595/api/loginArl");
    assert_eq!(r.body, Body::Json(Json::Object(vec![("arl".to_string(), text("abc"))])));
    assert!(r.headers.is_empty() && r.query.is_empty());
    assert_eq!(login("http://d:6595", ""), None);
    assert_eq!(login("http://d:6595", "abc"), Some(r));
}

#[test]
fn login_replies() {
    let named = answered("{\"status\": 1, \"user\": {\"name\": \"ann\"}}");
    assert_eq!(login_arl_reply(&named), Ok("ann".to_string()));
    assert_eq!(login_arl_reply(&answered("{\"status\": 2}")), Ok("unknown".to_string()));
    assert_eq!(
        login_arl_reply(&answered("{\"status\": 0}")),
        Err("Login failed (status 0)".to_string())
    );
    assert_eq!(
        login_arl_reply(&answered("{\"status\": -3}")),
        Err("Login failed (status -3)".to_string())
    );
    assert_eq!(
        login_arl_reply(&answered("[]")),
        Err("Login failed (status 0)".to_string())
    );
    assert_eq!(
        login_arl_reply(&Reply::Unreachable("no route".to_string())),
        Err("no route".to_string())
    );
    assert_eq!(
        login_arl_reply(&answered("oops")),
        Err("error decoding response body: expected value at line 1 column 1".to_string())
    );
    let broken = Reply::Answered {
        status: 200,
        reason: "200 OK".to_string(),
        body: Err("cut off".to_string()),
    };
    assert_eq!(login_arl_reply(&broken), Err("cut off".to_string()));
    assert_eq!(read_login(&Json::Null), Err("Login failed (status 0)".to_string()));
}

#[test]
fn links_are_queued_in_the_given_quality() {
    let r = add_to_queue("http://d", "https://www.deezer.com/track/1", 3);
    assert_eq!(r.url, "http://d/api/addToQueue");
    assert_eq!(
        r.body,
        Body::Json(Json::Object(vec![
            ("url".to_string(), text("https://www.deezer.com/track/1")),
            ("bitrate".to_string(), Json::Number { unsigned: Some(3), signed: Some(3) }),
        ]))
    );
    assert_eq!(add_to_queue_reply(&answered("{\"result\": true}")), Ok(()));
    assert_eq!(
        add_to_queue_reply(&answered("{\"result\": false, \"errid\": \"NotLoggedIn\"}")),
        Err("NotLoggedIn".to_string())
    );
    assert_eq!(
        add_to_queue_reply(&answered("{\"result\": \"true\"}")),
        Err("Unknown error".to_string())
    );
}

#[test]
fn the_queue_is_counted() {
    let r = get_queue("http://d");
    assert_eq!((r.method, r.url.as_str()), (Method::Get, "http://d/api/getQueue"));
    let reply = answered(
        "{\"queue\": {\
            \"a\": {\"progress\": 0, \"downloaded\": 0, \"size\": 1},\
            \"b\": {\"progress\": 40, \"downloaded\": 0, \"size\": 2},\
            \"c\": {\"progress\": 100, \"downloaded\": 2, \"size\": 2},\
            \"d\": {},\
            \"e\": {\"size\": 0},\
            \"f\": {\"downloaded\": 1}}}",
    );
    assert_eq!(
        get_queue_reply(&reply),
        Ok(QueueStatus { pending: 3, downloading: 1, done: 2 })
    );
    assert_eq!(
        get_queue_reply(&answered("{\"queue\": []}")),
        Ok(QueueStatus { pending: 0, downloading: 0, done: 0 })
    );
    assert!(get_queue_reply(&answered("")).is_err());
}

#[test]
fn the_queue_tells_statuses() {
    let reply = answered(
        "{\"queue\": {\"k1\": {\"status\": \"inQueue\"}, \"k2\": {\"status\": \"failed\"}, \"k3\": {}}}",
    );
    let map = queue_status_map(&reply).unwrap();
    assert_eq!(
        map,
        vec![
            ("k1".to_string(), "inQueue".to_string()),
            ("k2".to_string(), "failed".to_string()),
            ("k3".to_string(), "".to_string()),
        ]
    );
    assert!(queue_status_map(&answered("{}")).unwrap().is_empty());
    assert!(queue_status_map(&Reply::Unreachable("down".to_string())).is_err());
}

#[test]
fn searches_ask_for_a_kind() {
    let r = search("http://d", "daft punk", SearchKind::Album);
    assert_eq!(r.url, "http://d/api/search");
    assert_eq!(
        r.query,
        vec![
            ("term".to_string(), "daft punk".to_string()),
            ("type".to_string(), "album".to_string()),
        ]
    );
    assert_eq!(SearchKind::Track.name(), "track");
}

#[test]
fn search_results_are_few() {
    let mut body = "{\"data\": [".to_string();
    for i in 0..11 {
        if i > 0 {
            body.push(',');
        }
        body.push_str(&format!(
            "{{\"title\": \"t{}\", \"artist\": {{\"name\": \"a\"}}, \"link\": \"l{}\"}}",
            i, i
        ));
    }
    body.push_str("]}");
    let found = search_reply(&answered(&body)).unwrap();
    assert_eq!(found.len(), 8);
    assert_eq!(found[7].title, "t7");
    assert_eq!(found[0].link, "l0");
}

#[test]
fn search_results_stand_in_either_place() {
    let found = search_reply(&answered("{\"results\": {\"data\": [{}]}}")).unwrap();
    assert_eq!(found.len(), 1);
    assert_eq!((found[0].title.as_str(), found[0].artist.as_str()), ("?", "?"));
    assert_eq!(found[0].link, "");
    assert!(search_reply(&answered("{}")).unwrap().is_empty());
    assert_eq!(
        search_reply(&Reply::Unreachable("x".to_string())),
        Err("x".to_string())
    );
}
