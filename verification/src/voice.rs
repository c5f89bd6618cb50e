//! Voice notes: transcription by Whisper, song recognition by AudD, and Odesli for links.
//!
//! Whisper runs at OpenAI where a key for it is configured, else at the configured address, else
//! not at all.
use vstd::prelude::*;

use crate::http::{document, document_of, get, get_request, given, is_success, pair, pairs};
use crate::http::{success, told, Body, BodyV, Method, Page, PageV, Reply, ReplyV, Request};
use crate::http::{went_well, RequestV};
use crate::json::{Json, JsonV};
use crate::text::{cat2, is_white_space, trim, trimmed, trimming_takes_white_space};

verus! {

/// A request that uploads the recorded audio.
pub open spec fn upload(
    url: Seq<char>,
    headers: Seq<(Seq<char>, Seq<char>)>,
    fields: Seq<(Seq<char>, Seq<char>)>,
) -> RequestV {
    RequestV {
        method: Method::Post,
        url,
        headers,
        query: Seq::empty(),
        body: BodyV::Audio { file_name: "audio.ogg"@, media_type: "audio/ogg"@, fields },
    }
}

fn upload_to(
    url: &str,
    headers: Vec<(String, String)>,
    fields: Vec<(String, String)>,
) -> (r: Request)
    ensures
        r@ == upload(url@, pairs(headers@), pairs(fields@)),
{
    let body = Body::Audio {
        file_name: "audio.ogg".to_owned(),
        media_type: "audio/ogg".to_owned(),
        fields,
    };
    let r = Request { method: Method::Post, url: url.to_owned(), headers, query: Vec::new(), body };
    assert(r@.query =~= Seq::empty());
    r
}

// ---- Transcription -------------------------------------------------------------------------

/// The fields of the form that Whisper reads.
pub open spec fn whisper_fields() -> Seq<(Seq<char>, Seq<char>)> {
    seq![("model"@, "whisper-1"@), ("response_format"@, "text"@)]
}

/// The upload that asks for a transcription: to OpenAI with a key for it, else to the configured
/// server.
pub open spec fn transcription(
    openai_key: Seq<char>,
    whisper_url: Seq<char>,
) -> Result<RequestV, Seq<char>> {
    if openai_key.len() > 0 {
        Ok(
            upload(
                "https://api.openai.com/v1/audio/transcriptions"@,
                seq![("Authorization"@, "Bearer "@ + openai_key)],
                whisper_fields(),
            ),
        )
    } else if whisper_url.len() > 0 {
        Ok(upload(whisper_url, Seq::empty(), whisper_fields()))
    } else {
        Err("Voice search is not configured."@)
    }
}

/// A request, or why there is none.
pub open spec fn asked(r: Result<Request, String>) -> Result<RequestV, Seq<char>> {
    match r {
        Ok(q) => Ok(q@),
        Err(e) => Err(e@),
    }
}

/// Asks for the transcription of a voice note.
pub fn transcribe(openai_key: &str, whisper_url: &str) -> (r: Result<Request, String>)
    ensures
        asked(r) == transcription(openai_key@, whisper_url@),
{
    let fields: Vec<(String, String)> = vec![
        pair("model", "whisper-1"),
        pair("response_format", "text"),
    ];
    assert(pairs(fields@) =~= whisper_fields());
    if !openai_key.is_empty() {
        let headers: Vec<(String, String)> = vec![
            ("Authorization".to_owned(), cat2("Bearer ", openai_key)),
        ];
        assert(pairs(headers@) =~= seq![("Authorization"@, "Bearer "@ + openai_key@)]);
        Ok(upload_to("https://api.openai.com/v1/audio/transcriptions", headers, fields))
    } else if !whisper_url.is_empty() {
        let headers: Vec<(String, String)> = Vec::new();
        assert(pairs(headers@) =~= Seq::empty());
        Ok(upload_to(whisper_url, headers, fields))
    } else {
        Err("Voice search is not configured.".to_owned())
    }
}

/// What a reply of Whisper means: the text without the white space around it, or the complaint.
pub open spec fn transcript(page: PageV) -> Result<Seq<char>, Seq<char>> {
    match page {
        Reply::Unreachable(e) => Err(e),
        Reply::Answered { status, reason, body } => if !success(status) {
            Err("Whisper API error: "@ + reason)
        } else {
            match body {
                Ok(text) => Ok(trimmed(text)),
                Err(e) => Err(e),
            }
        },
    }
}

/// Reads a reply of Whisper.
pub fn transcribe_reply(page: &Page) -> (r: Result<String, String>)
    ensures
        told(r) == transcript(page@),
{
    match page {
        Reply::Unreachable(e) => Err(e.clone()),
        Reply::Answered { status, reason, body } => {
            if !is_success(*status) {
                return Err(cat2("Whisper API error: ", reason.as_str()));
            }
            match body {
                Ok(text) => Ok(trim(text.as_str())),
                Err(e) => Err(e.clone()),
            }
        },
    }
}

// ---- Recognition ---------------------------------------------------------------------------

/// A recognized song. To queue it, its Deezer link is preferred, then what Odesli knows of its
/// song link, then its Spotify link, then a search for its title and artist.
#[derive(Debug, PartialEq)]
pub struct RecognitionResult<S = String> {
    pub title: S,
    pub artist: S,
    pub deezer_url: Option<S>,
    pub spotify_url: Option<S>,
    pub song_link: Option<S>,
}

/// What is known of a recognized song.
pub type RecognitionResultV = RecognitionResult<Seq<char>>;

impl View for RecognitionResult {
    type V = RecognitionResultV;

    open spec fn view(&self) -> RecognitionResultV {
        RecognitionResult {
            title: self.title@,
            artist: self.artist@,
            deezer_url: given(self.deezer_url),
            spotify_url: given(self.spotify_url),
            song_link: given(self.song_link),
        }
    }
}

/// A recognized song, or why there is none.
pub open spec fn recognized(r: Result<RecognitionResult, String>) -> Result<
    RecognitionResultV,
    Seq<char>,
> {
    match r {
        Ok(rec) => Ok(rec@),
        Err(e) => Err(e@),
    }
}

/// The upload that asks for a recognition.
pub open spec fn recognition(audd_key: Seq<char>) -> Result<RequestV, Seq<char>> {
    if audd_key.len() == 0 {
        Err("Song recognition is not configured."@)
    } else {
        Ok(
            upload(
                "https://api.audd.io/"@,
                Seq::empty(),
                seq![("api_token"@, audd_key), ("return"@, "deezer,spotify"@)],
            ),
        )
    }
}

/// Asks which song was recorded.
pub fn recognize(audd_key: &str) -> (r: Result<Request, String>)
    ensures
        asked(r) == recognition(audd_key@),
{
    if audd_key.is_empty() {
        return Err("Song recognition is not configured.".to_owned());
    }
    let headers: Vec<(String, String)> = Vec::new();
    let fields: Vec<(String, String)> = vec![
        pair("api_token", audd_key),
        pair("return", "deezer,spotify"),
    ];
    assert(pairs(headers@) =~= Seq::empty());
    assert(pairs(fields@) =~= seq![("api_token"@, audd_key@), ("return"@, "deezer,spotify"@)]);
    Ok(upload_to("https://api.audd.io/", headers, fields))
}

/// What AudD's answer says of the song.
pub open spec fn song_in(result: JsonV) -> RecognitionResultV {
    RecognitionResult {
        title: result.at("title"@).text_or(""@),
        artist: result.at("artist"@).text_or(""@),
        deezer_url: result.at("deezer"@).at("link"@).text(),
        spotify_url: result.at("spotify"@).at("external_urls"@).at("spotify"@).text(),
        song_link: result.at("song_link"@).text(),
    }
}

/// What AudD's answer means.
pub open spec fn recognition_outcome(data: JsonV) -> Result<RecognitionResultV, Seq<char>> {
    if data.at("status"@) != JsonV::Text("success"@) {
        Err("AudD could not identify the song."@)
    } else if data.at("result"@) == JsonV::Null {
        Err("Song not recognized. Try a longer clip."@)
    } else if song_in(data.at("result"@)).title.len() == 0 {
        Err("Song not recognized."@)
    } else {
        Ok(song_in(data.at("result"@)))
    }
}

/// What a reply of AudD means.
pub open spec fn recognition_result(reply: ReplyV) -> Result<RecognitionResultV, Seq<char>> {
    match document_of(reply) {
        Ok(data) => recognition_outcome(data),
        Err(e) => Err(e),
    }
}

/// Reads what AudD says.
pub fn read_recognition(data: &Json) -> (r: Result<RecognitionResult, String>)
    ensures
        recognized(r) == recognition_outcome(data@),
{
    if !data.at("status").is_text("success") {
        return Err("AudD could not identify the song.".to_owned());
    }
    let result = data.at("result");
    if result.is_null() {
        return Err("Song not recognized. Try a longer clip.".to_owned());
    }
    let title = result.at("title").text_or("");
    let artist = result.at("artist").text_or("");
    if title.as_str().is_empty() {
        return Err("Song not recognized.".to_owned());
    }
    let deezer_url = result.at("deezer").at("link").to_text();
    let spotify_url = result.at("spotify").at("external_urls").at("spotify").to_text();
    let song_link = result.at("song_link").to_text();
    Ok(RecognitionResult { title, artist, deezer_url, spotify_url, song_link })
}

/// Reads a reply of AudD.
pub fn recognize_reply(reply: &Reply) -> (r: Result<RecognitionResult, String>)
    ensures
        recognized(r) == recognition_result(reply@),
{
    match document(reply) {
        Ok(data) => read_recognition(&data),
        Err(e) => Err(e),
    }
}

/// A recognized song always has a title.
pub proof fn recognized_songs_have_titles(reply: ReplyV)
    ensures
        recognition_result(reply) matches Ok(rec) ==> rec.title.len() > 0,
{
}

// ---- Odesli --------------------------------------------------------------------------------

/// The request for the platforms that have a song.
pub open spec fn odesli_request(song_link: Seq<char>) -> RequestV {
    get_request("https://api.song.link/v1-alpha.1/links"@, seq![("url"@, song_link)])
}

/// Asks Odesli for the platforms that have a song.
pub fn lookup_deezer_via_odesli(song_link: &str) -> (r: Request)
    ensures
        r@ == odesli_request(song_link@),
{
    let query: Vec<(String, String)> = vec![pair("url", song_link)];
    assert(pairs(query@) =~= seq![("url"@, song_link@)]);
    get("https://api.song.link/v1-alpha.1/links".to_owned(), query)
}

/// The Deezer link among the platforms that Odesli lists.
pub open spec fn deezer_link_in(data: JsonV) -> Option<Seq<char>> {
    data.at("linksByPlatform"@).at("deezer"@).at("url"@).text()
}

/// The Deezer link that a reply of Odesli gives.
pub open spec fn odesli_link(reply: ReplyV) -> Option<Seq<char>> {
    if !went_well(reply) {
        None
    } else {
        match document_of(reply) {
            Ok(data) => deezer_link_in(data),
            Err(_) => None,
        }
    }
}

/// Reads the Deezer link among the platforms that Odesli lists.
pub fn read_odesli(data: &Json) -> (r: Option<String>)
    ensures
        given(r) == deezer_link_in(data@),
{
    data.at("linksByPlatform").at("deezer").at("url").to_text()
}

/// Reads the Deezer link out of a reply of Odesli.
pub fn odesli_reply(reply: &Reply) -> (r: Option<String>)
    ensures
        given(r) == odesli_link(reply@),
{
    match reply {
        Reply::Unreachable(_) => return None,
        Reply::Answered { status, .. } => if !is_success(*status) {
            return None;
        },
    }
    match document(reply) {
        Ok(data) => read_odesli(&data),
        Err(_) => None,
    }
}

// ---- Laws ----------------------------------------------------------------------------------

/// A voice note is transcribed by OpenAI where there is a key for it, with that key; else by the
/// server at the configured address, without a key; else not at all. The form asks for plain text.
pub proof fn notes_are_transcribed_where_configured(key: Seq<char>, address: Seq<char>)
    ensures
        key.len() > 0 ==> {
            &&& transcription(key, address) matches Ok(q)
            &&& q.url == "https://api.openai.com/v1/audio/transcriptions"@
            &&& q.headers == seq![("Authorization"@, "Bearer "@ + key)]
        },
        key.len() == 0 && address.len() > 0 ==> {
            &&& transcription(key, address) matches Ok(q)
            &&& q.url == address
            &&& q.headers.len() == 0
        },
        key.len() == 0 && address.len() == 0 ==> transcription(key, address) is Err,
        transcription(key, address) matches Ok(q) ==> {
            &&& q.method == Method::Post
            &&& q.body matches BodyV::Audio { file_name, media_type, fields }
            &&& file_name == "audio.ogg"@ && media_type == "audio/ogg"@
            &&& fields.contains(("model"@, "whisper-1"@))
            &&& fields.contains(("response_format"@, "text"@))
            &&& fields.len() == 2
        },
{
    assert(whisper_fields()[0] == ("model"@, "whisper-1"@));
    assert(whisper_fields()[1] == ("response_format"@, "text"@));
}

/// What Whisper answers with success is the text that was heard, but for the white space around it;
/// any other answer is no text.
pub proof fn heard_texts_come_back(
    status: u16,
    reason: Seq<char>,
    before: Seq<char>,
    text: Seq<char>,
    behind: Seq<char>,
)
    requires
        text.len() > 0 ==> !is_white_space(text[0]) && !is_white_space(text.last()),
        forall|i: int| 0 <= i < before.len() ==> is_white_space(#[trigger] before[i]),
        forall|i: int| 0 <= i < behind.len() ==> is_white_space(#[trigger] behind[i]),
    ensures
        200 <= status < 300 && text.len() > 0 ==> transcript(
            PageV::Answered { status, reason, body: Ok(before + text + behind) },
        ) == Ok::<Seq<char>, Seq<char>>(text),
        status < 200 || status >= 300 ==> transcript(
            PageV::Answered { status, reason, body: Ok(before + text + behind) },
        ) is Err,
        transcript(PageV::Unreachable(reason)) == Err::<Seq<char>, Seq<char>>(reason),
        200 <= status < 300 ==> transcript(PageV::Answered { status, reason: text, body: Err(reason) })
            == Err::<Seq<char>, Seq<char>>(reason),
{
    let all = before + text + behind;
    if text.len() > 0 {
        let lo = before.len() as int;
        let hi = lo + text.len();
        let cut = trimming_takes_white_space(all);
        assert(all[lo] == text[0]);
        assert(all[hi - 1] == text.last());
        assert forall|i: int| 0 <= i < lo implies is_white_space(#[trigger] all[i]) by {
            assert(all[i] == before[i]);
        }
        assert forall|i: int| hi <= i < all.len() implies is_white_space(#[trigger] all[i]) by {
            assert(all[i] == behind[i - hi]);
        }
        assert(cut.0 == lo && cut.1 == hi);
        assert(trimmed(all) =~= text);
    }
}

/// A recording is sent to AudD with the key for it, and the answer is to name the song on Deezer and
/// Spotify. Without a key nothing is sent.
pub proof fn recordings_are_sent_with_the_key(key: Seq<char>)
    ensures
        key.len() == 0 ==> recognition(key) is Err,
        key.len() > 0 ==> {
            &&& recognition(key) matches Ok(q)
            &&& q.method == Method::Post && q.url == "https://api.audd.io/"@
            &&& q.body matches BodyV::Audio { file_name, media_type, fields }
            &&& fields.contains(("api_token"@, key))
            &&& fields.contains(("return"@, "deezer,spotify"@))
        },
{
    let fields = seq![("api_token"@, key), ("return"@, "deezer,spotify"@)];
    assert(fields[0] == ("api_token"@, key));
    assert(fields[1] == ("return"@, "deezer,spotify"@));
}

/// A song is recognized exactly where AudD reports success and names a title. Then its title, its
/// artist and its links are those that AudD gives, each where it gives it.
pub proof fn recognized_songs_are_as_audd_names_them(
    data: JsonV,
    title: Seq<char>,
    artist: Seq<char>,
    link: Seq<char>,
)
    ensures
        ({
            let song = data.at("result"@);
            &&& recognition_outcome(data) is Ok <==> data.at("status"@) == JsonV::Text("success"@)
                && song.at("title"@) is Text && song.at("title"@)->Text_0.len() > 0
            &&& recognition_outcome(data) matches Ok(rec) ==> {
                &&& song.at("title"@) == JsonV::Text(title) ==> rec.title == title
                &&& song.at("artist"@) == JsonV::Text(artist) ==> rec.artist == artist
                &&& song.at("artist"@) !is Text ==> rec.artist.len() == 0
                &&& song.at("deezer"@).at("link"@) == JsonV::Text(link) ==> rec.deezer_url == Some(
                    link,
                )
                &&& song.at("deezer"@).at("link"@) !is Text ==> rec.deezer_url is None
                &&& song.at("spotify"@).at("external_urls"@).at("spotify"@) == JsonV::Text(link)
                    ==> rec.spotify_url == Some(link)
                &&& song.at("spotify"@).at("external_urls"@).at("spotify"@) !is Text
                    ==> rec.spotify_url is None
                &&& song.at("song_link"@) == JsonV::Text(link) ==> rec.song_link == Some(link)
                &&& song.at("song_link"@) !is Text ==> rec.song_link is None
            }
        }),
{
    reveal_strlit("");
}

/// Odesli is asked for the song by its link, and its Deezer link is the one under the platform
/// `deezer`, where the answer went well.
pub proof fn odesli_is_asked_by_the_link(song_link: Seq<char>, data: JsonV, url: Seq<char>, reply: ReplyV)
    ensures
        odesli_request(song_link).method == Method::Get,
        odesli_request(song_link).url == "https://api.song.link/v1-alpha.1/links"@,
        odesli_request(song_link).query == seq![("url"@, song_link)],
        data.at("linksByPlatform"@).at("deezer"@).at("url"@) == JsonV::Text(url) ==> deezer_link_in(data)
            == Some(url),
        data.at("linksByPlatform"@).at("deezer"@).at("url"@) !is Text ==> deezer_link_in(data) is None,
        went_well(reply) && document_of(reply) == Ok::<JsonV, Seq<char>>(data) ==> odesli_link(reply)
            == deezer_link_in(data),
        !went_well(reply) ==> odesli_link(reply) is None,
{
}

} // verus!
