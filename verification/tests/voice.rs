use teleemix::http::{Body, Method, Page, Reply};
use teleemix::voice::{
    lookup_deezer_via_odesli, odesli_reply, recognize, recognize_reply, transcribe,
    transcribe_reply, RecognitionResult,
};

fn reply(status: u16, text: &str) -> Reply {
    Reply::Answered {
        status,
        reason: format!("{} Reason", status),
        body: Ok(text.as_bytes().to_vec()),
    }
}

fn fields(list: &[(&str, &str)]) -> Vec<(String, String)> {
    list.iter().map(|(a, b)| (a.to_string(), b.to_string())).collect()
}

#[test]
fn openai_is_preferred_over_a_local_server() {
    let r = transcribe("sk-1", "http://w").unwrap();
    assert_eq!(r.method, Method::Post);
    assert_eq!(r.url, "https://api.openai.com/v1/audio/transcriptions");
    assert_eq!(r.headers, fields(&[("Authorization", "Bearer sk-1")]));
    assert_eq!(
        r.body,
        Body::Audio {
            file_name: "audio.ogg".to_string(),
            media_type: "audio/ogg".to_string(),
            fields: fields(&[("model", "whisper-1"), ("response_format", "text")]),
        }
    );
    let local = transcribe("", "http://w").unwrap();
    assert_eq!(local.url, "http://w");
    assert!(local.headers.is_empty());
    assert_eq!(transcribe("", ""), Err("Voice search is not configured.".to_string()));
}

#[test]
fn transcripts_are_trimmed() {
    let page: Page = Reply::Answered {
        status: 200,
        reason: "200 OK".to_string(),
        body: Ok(" daft punk\n".to_string()),
    };
    assert_eq!(transcribe_reply(&page), Ok("daft punk".to_string()));
    let refused: Page = Reply::Answered {
        status: 401,
        reason: "401 Unauthorized".to_string(),
        body: Ok("no".to_string()),
    };
    assert_eq!(
        transcribe_reply(&refused),
        Err("Whisper API error: 401 Unauthorized".to_string())
    );
    let cut: Page = Reply::Answered {
        status: 200,
        reason: "200 OK".to_string(),
        body: Err("cut off".to_string()),
    };
    assert_eq!(transcribe_reply(&cut), Err("cut off".to_string()));
    let gone: Page = Reply::Unreachable("gone".to_string());
    assert_eq!(transcribe_reply(&gone), Err("gone".to_string()));
}

#[test]
fn recognition_asks_audd() {
    let r = recognize("key").unwrap();
    assert_eq!(r.url, "https://api.audd.io/");
    assert_eq!(
        r.body,
        Body::Audio {
            file_name: "audio.ogg".to_string(),
            media_type: "audio/ogg".to_string(),
            fields: fields(&[("api_token", "key"), ("return", "deezer,spotify")]),
        }
    );
    assert_eq!(recognize(""), Err("Song recognition is not configured.".to_string()));
}

#[test]
fn recognized_songs_carry_their_links() {
    let full = reply(
        200,
        "{\"status\":\"success\",\"result\":{\"title\":\"T\",\"artist\":\"A\",\
         \"deezer\":{\"link\":\"d\"},\"spotify\":{\"external_urls\":{\"spotify\":\"s\"}},\
         \"song_link\":\"l\"}}",
    );
    assert_eq!(
        recognize_reply(&full),
        Ok(RecognitionResult {
            title: "T".to_string(),
            artist: "A".to_string(),
            deezer_url: Some("d".to_string()),
            spotify_url: Some("s".to_string()),
            song_link: Some("l".to_string()),
        })
    );
    let bare = reply(200, "{\"status\":\"success\",\"result\":{\"title\":\"T\"}}");
    assert_eq!(
        recognize_reply(&bare),
        Ok(RecognitionResult {
            title: "T".to_string(),
            artist: String::new(),
            deezer_url: None,
            spotify_url: None,
            song_link: None,
        })
    );
}

#[test]
fn unrecognized_songs_say_why() {
    let complaint = |text: &str| recognize_reply(&reply(200, text)).unwrap_err();
    assert_eq!(complaint("{\"status\":\"error\"}"), "AudD could not identify the song.");
    assert_eq!(complaint("{}"), "AudD could not identify the song.");
    assert_eq!(
        complaint("{\"status\":\"success\",\"result\":null}"),
        "Song not recognized. Try a longer clip."
    );
    assert_eq!(
        complaint("{\"status\":\"success\",\"result\":{\"title\":\"\"}}"),
        "Song not recognized."
    );
    assert_eq!(complaint("["), "error decoding response body: EOF while parsing a list at line 1 column 1");
}

#[test]
fn odesli_gives_a_deezer_link() {
    let r = lookup_deezer_via_odesli("https://lis.tn/x");
    assert_eq!(r.url, "https://api.song.link/v1-alpha.1/links");
    assert_eq!(r.query, fields(&[("url", "https://lis.tn/x")]));
    let body = "{\"linksByPlatform\":{\"deezer\":{\"url\":\"https://www.deezer.com/track/1\"}}}";
    assert_eq!(odesli_reply(&reply(200, body)), Some("https://www.deezer.com/track/1".to_string()));
    assert_eq!(odesli_reply(&reply(404, body)), None);
    assert_eq!(odesli_reply(&reply(200, "{}")), None);
    assert_eq!(odesli_reply(&reply(200, "x")), None);
    assert_eq!(odesli_reply(&Reply::Unreachable("x".to_string())), None);
}
