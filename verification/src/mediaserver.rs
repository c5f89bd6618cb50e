//! Media servers: Plex, Jellyfin and Navidrome (or another Subsonic server), where a downloaded
//! playlist is built again.
use vstd::prelude::*;

use crate::config::with_var;
use crate::env::{get_var_or, var_or, variables_are_apart};
use crate::http::{document, document_of, given, is_success, pair, pairs, told, went_well};
use crate::http::{Body, BodyV, Method, Reply, ReplyV, Request, RequestV};
use crate::json::{members, members_are_read_by_key, values, Json, JsonV};
use crate::text::{cat2, cat3, cat4, contains, decimal, eq_ignore_ascii_case, has, join, joined};
use crate::text::{lowercase, numeral, same, same_but_case, texts, trim, trim_end_char, trimmed};
use crate::text::{is_white_space, joined_texts_part, numeral_value, numerals_read_back, parts};
use crate::text::{texts_contain_themselves, trailing_characters_go, trimming_takes_white_space};
use crate::text::{without_trailing, write_decimal, write_number};

verus! {

// ---- Configuration -------------------------------------------------------------------------

/// A media server and what it takes to talk to it.
#[derive(Clone, Debug, PartialEq)]
pub enum MediaServer<S = String> {
    Plex { url: S, token: S },
    Jellyfin { url: S, api_key: S, user_id: S },
    Navidrome { url: S, user: S, password: S },
}

/// A media server and what it takes to talk to it.
pub type MediaServerV = MediaServer<Seq<char>>;

impl View for MediaServer {
    type V = MediaServerV;

    open spec fn view(&self) -> MediaServerV {
        match self {
            MediaServer::Plex { url, token } => MediaServer::Plex { url: url@, token: token@ },
            MediaServer::Jellyfin { url, api_key, user_id } => MediaServer::Jellyfin {
                url: url@,
                api_key: api_key@,
                user_id: user_id@,
            },
            MediaServer::Navidrome { url, user, password } => MediaServer::Navidrome {
                url: url@,
                user: user@,
                password: password@,
            },
        }
    }
}

/// A setting of a server: the variable without white space around it and slashes behind it.
pub open spec fn setting(vars: Seq<(Seq<char>, Seq<char>)>, name: Seq<char>) -> Seq<char> {
    without_trailing(trimmed(var_or(vars, name, ""@)), '/')
}

/// The server of a kind, where all of its settings are there.
pub open spec fn server_of_kind(
    kind: Seq<char>,
    vars: Seq<(Seq<char>, Seq<char>)>,
) -> Option<MediaServerV> {
    if kind == "plex"@ {
        let (url, token) = (setting(vars, "PLEX_URL"@), setting(vars, "PLEX_TOKEN"@));
        if url.len() == 0 || token.len() == 0 {
            None
        } else {
            Some(MediaServer::Plex { url, token })
        }
    } else if kind == "jellyfin"@ {
        let url = setting(vars, "JELLYFIN_URL"@);
        let api_key = setting(vars, "JELLYFIN_API_KEY"@);
        let user_id = setting(vars, "JELLYFIN_USER_ID"@);
        if url.len() == 0 || api_key.len() == 0 || user_id.len() == 0 {
            None
        } else {
            Some(MediaServer::Jellyfin { url, api_key, user_id })
        }
    } else if kind == "navidrome"@ || kind == "subsonic"@ {
        let url = setting(vars, "NAVIDROME_URL"@);
        let user = setting(vars, "NAVIDROME_USER"@);
        let password = setting(vars, "NAVIDROME_PASSWORD"@);
        if url.len() == 0 || user.len() == 0 || password.len() == 0 {
            None
        } else {
            Some(MediaServer::Navidrome { url, user, password })
        }
    } else {
        None
    }
}

/// The server that the environment configures; the case of its kind does not matter.
pub open spec fn server_in(vars: Seq<(Seq<char>, Seq<char>)>) -> Option<MediaServerV> {
    server_of_kind(lowercase(trimmed(var_or(vars, "MEDIA_SERVER"@, ""@))), vars)
}

/// A server that is configured, or none.
pub open spec fn configured(r: Option<MediaServer>) -> Option<MediaServerV> {
    match r {
        Some(s) => Some(s@),
        None => None,
    }
}

fn read_setting(vars: &Vec<(String, String)>, name: &str) -> (r: String)
    ensures
        r@ == setting(pairs(vars@), name@),
{
    let value = get_var_or(vars, name, "");
    trim_end_char(trim(value.as_str()).as_str(), '/')
}

impl MediaServer {
    /// The server that the environment configures; the case of its kind does not matter.
    pub fn from_env(vars: &Vec<(String, String)>) -> (r: Option<MediaServer>)
        ensures
            configured(r) == server_in(pairs(vars@)),
    {
        let value = get_var_or(vars, "MEDIA_SERVER", "");
        let kind = trim(value.as_str()).as_str().to_lowercase();
        MediaServer::of_kind(kind.as_str(), vars)
    }

    /// The server of a kind, where the environment has all of its settings.
    pub fn of_kind(kind: &str, vars: &Vec<(String, String)>) -> (r: Option<MediaServer>)
        ensures
            configured(r) == server_of_kind(kind@, pairs(vars@)),
    {
        if same(kind, "plex") {
            let url = read_setting(vars, "PLEX_URL");
            let token = read_setting(vars, "PLEX_TOKEN");
            if url.as_str().is_empty() || token.as_str().is_empty() {
                return None;
            }
            Some(MediaServer::Plex { url, token })
        } else if same(kind, "jellyfin") {
            let url = read_setting(vars, "JELLYFIN_URL");
            let api_key = read_setting(vars, "JELLYFIN_API_KEY");
            let user_id = read_setting(vars, "JELLYFIN_USER_ID");
            if url.as_str().is_empty() || api_key.as_str().is_empty()
                || user_id.as_str().is_empty() {
                return None;
            }
            Some(MediaServer::Jellyfin { url, api_key, user_id })
        } else if same(kind, "navidrome") || same(kind, "subsonic") {
            let url = read_setting(vars, "NAVIDROME_URL");
            let user = read_setting(vars, "NAVIDROME_USER");
            let password = read_setting(vars, "NAVIDROME_PASSWORD");
            if url.as_str().is_empty() || user.as_str().is_empty() || password.as_str().is_empty() {
                return None;
            }
            Some(MediaServer::Navidrome { url, user, password })
        } else {
            None
        }
    }

    /// The name of the server to show.
    pub fn label(&self) -> (r: &'static str)
        ensures
            r@ == label_of(self@),
    {
        match self {
            MediaServer::Plex { .. } => "Plex",
            MediaServer::Jellyfin { .. } => "Jellyfin",
            MediaServer::Navidrome { .. } => "Navidrome",
        }
    }

    /// A copy of the configuration.
    pub fn copy(&self) -> (r: MediaServer)
        ensures
            r@ == self@,
    {
        match self {
            MediaServer::Plex { url, token } => MediaServer::Plex {
                url: url.clone(),
                token: token.clone(),
            },
            MediaServer::Jellyfin { url, api_key, user_id } => MediaServer::Jellyfin {
                url: url.clone(),
                api_key: api_key.clone(),
                user_id: user_id.clone(),
            },
            MediaServer::Navidrome { url, user, password } => MediaServer::Navidrome {
                url: url.clone(),
                user: user.clone(),
                password: password.clone(),
            },
        }
    }
}

/// The name of a server to show.
pub open spec fn label_of(server: MediaServerV) -> Seq<char> {
    match server {
        MediaServer::Plex { .. } => "Plex"@,
        MediaServer::Jellyfin { .. } => "Jellyfin"@,
        MediaServer::Navidrome { .. } => "Navidrome"@,
    }
}

/// Every server that is configured has all of its settings: an address and what it takes to be
/// let in.
pub proof fn configured_servers_are_complete(
    kind: Seq<char>,
    vars: Seq<(Seq<char>, Seq<char>)>,
)
    ensures
        match server_of_kind(kind, vars) {
            Some(MediaServer::Plex { url, token }) => url.len() > 0 && token.len() > 0,
            Some(MediaServer::Jellyfin { url, api_key, user_id }) => url.len() > 0 && api_key.len()
                > 0 && user_id.len() > 0,
            Some(MediaServer::Navidrome { url, user, password }) => url.len() > 0 && user.len() > 0
                && password.len() > 0,
            None => true,
        },
{
}

// ---- Calls ---------------------------------------------------------------------------------

/// A call to a media server, still without what lets the bot in.
#[derive(Debug, PartialEq)]
pub struct Call {
    pub method: Method,
    pub path: String,
    pub query: Vec<(String, String)>,
    pub body: Body,
    /// The answer is to be JSON.
    pub json: bool,
}

/// A call to a media server.
pub ghost struct CallV {
    pub method: Method,
    pub path: Seq<char>,
    pub query: Seq<(Seq<char>, Seq<char>)>,
    pub body: BodyV,
    pub json: bool,
}

impl View for Call {
    type V = CallV;

    open spec fn view(&self) -> CallV {
        CallV {
            method: self.method,
            path: self.path@,
            query: pairs(self.query@),
            body: self.body@,
            json: self.json,
        }
    }
}

/// What each call of a list asks for.
pub open spec fn calls(list: Seq<Call>) -> Seq<CallV> {
    list.map_values(|c: Call| c@)
}

/// A call without a body.
pub open spec fn plain_call(
    method: Method,
    path: Seq<char>,
    query: Seq<(Seq<char>, Seq<char>)>,
    json: bool,
) -> CallV {
    CallV { method, path, query, body: BodyV::Empty, json }
}

fn plain(method: Method, path: String, query: Vec<(String, String)>, json: bool) -> (r: Call)
    ensures
        r@ == plain_call(method, path@, pairs(query@), json),
{
    Call { method, path, query, body: Body::Empty, json }
}

fn no_query() -> (r: Vec<(String, String)>)
    ensures
        pairs(r@) == Seq::<(Seq<char>, Seq<char>)>::empty(),
{
    let r: Vec<(String, String)> = Vec::new();
    assert(pairs(r@) =~= Seq::empty());
    r
}

/// The MD5 digest of a text in lowercase hexadecimal.
pub uninterp spec fn md5_hex(text: Seq<char>) -> Seq<char>;

/// `md5::compute` gives the MD5 digest of the bytes of the text, and its `LowerHex` format writes
/// the digest in lowercase hexadecimal.
#[verifier::external_body]
fn md5_text(text: &str) -> (r: String)
    ensures
        r@ == md5_hex(text@),
{
    format!("{:x}", md5::compute(text))
}

/// The parameters of every call to a Subsonic server: the user, a token and the salt in it.
pub open spec fn subsonic_params(
    user: Seq<char>,
    token: Seq<char>,
    salt: Seq<char>,
) -> Seq<(Seq<char>, Seq<char>)> {
    seq![
        ("u"@, user),
        ("t"@, token),
        ("s"@, salt),
        ("v"@, "1.16.1"@),
        ("c"@, "teleemix"@),
        ("f"@, "json"@),
    ]
}

/// What lets the bot into a Subsonic server: the user, and the digest of the password and a salt,
/// which is the time in hexadecimal.
pub open spec fn subsonic_login(
    user: Seq<char>,
    password: Seq<char>,
    nanos: nat,
) -> Seq<(Seq<char>, Seq<char>)> {
    let salt = numeral(nanos, 16);
    subsonic_params(user, md5_hex(password + salt), salt)
}

/// Gives the parameters of a call to a Subsonic server.
pub fn subsonic_query(user: &str, token: &str, salt: &str) -> (r: Vec<(String, String)>)
    ensures
        pairs(r@) == subsonic_params(user@, token@, salt@),
{
    let r: Vec<(String, String)> = vec![
        pair("u", user),
        pair("t", token),
        pair("s", salt),
        pair("v", "1.16.1"),
        pair("c", "teleemix"),
        pair("f", "json"),
    ];
    assert(pairs(r@) =~= subsonic_params(user@, token@, salt@));
    r
}

/// The request for a call, with what lets the bot in. `nanos` is the time of the call.
pub open spec fn signed_call(server: MediaServerV, call: CallV, nanos: nat) -> RequestV {
    match server {
        MediaServer::Plex { url, token } => RequestV {
            method: call.method,
            url: url + call.path,
            headers: if call.json {
                seq![("Accept"@, "application/json"@)]
            } else {
                Seq::empty()
            },
            query: seq![("X-Plex-Token"@, token)] + call.query,
            body: call.body,
        },
        MediaServer::Jellyfin { url, api_key, user_id } => RequestV {
            method: call.method,
            url: url + call.path,
            headers: seq![("X-Emby-Token"@, api_key)],
            query: call.query,
            body: call.body,
        },
        MediaServer::Navidrome { url, user, password } => RequestV {
            method: call.method,
            url: url + call.path,
            headers: Seq::empty(),
            query: subsonic_login(user, password, nanos) + call.query,
            body: call.body,
        },
    }
}

fn append_pairs(head: &mut Vec<(String, String)>, tail: Vec<(String, String)>)
    ensures
        pairs(final(head)@) == pairs(old(head)@) + pairs(tail@),
{
    let mut tail = tail;
    let ghost before = head@;
    let ghost more = tail@;
    head.append(&mut tail);
    assert(pairs(head@) =~= pairs(before) + pairs(more));
}

impl MediaServer {
    /// Makes the request for a call.
    pub fn request(&self, call: Call, nanos: u128) -> (r: Request)
        ensures
            r@ == signed_call(self@, call@, nanos as nat),
    {
        match self {
            MediaServer::Plex { url, token } => {
                let mut query: Vec<(String, String)> = vec![pair("X-Plex-Token", token.as_str())];
                assert(pairs(query@) =~= seq![("X-Plex-Token"@, token@)]);
                append_pairs(&mut query, call.query);
                let headers: Vec<(String, String)> = if call.json {
                    vec![pair("Accept", "application/json")]
                } else {
                    Vec::new()
                };
                assert(pairs(headers@) =~= if call.json {
                    seq![("Accept"@, "application/json"@)]
                } else {
                    Seq::empty()
                });
                Request {
                    method: call.method,
                    url: cat2(url.as_str(), call.path.as_str()),
                    headers,
                    query,
                    body: call.body,
                }
            },
            MediaServer::Jellyfin { url, api_key, .. } => {
                let headers: Vec<(String, String)> = vec![pair("X-Emby-Token", api_key.as_str())];
                assert(pairs(headers@) =~= seq![("X-Emby-Token"@, api_key@)]);
                Request {
                    method: call.method,
                    url: cat2(url.as_str(), call.path.as_str()),
                    headers,
                    query: call.query,
                    body: call.body,
                }
            },
            MediaServer::Navidrome { url, user, password } => {
                let salt = write_number(nanos, 16);
                let token = md5_text(cat2(password.as_str(), salt.as_str()).as_str());
                let mut query = subsonic_query(user.as_str(), token.as_str(), salt.as_str());
                append_pairs(&mut query, call.query);
                Request {
                    method: call.method,
                    url: cat2(url.as_str(), call.path.as_str()),
                    headers: no_query(),
                    query,
                    body: call.body,
                }
            },
        }
    }
}

// ---- Answers -------------------------------------------------------------------------------

/// Whether a document counts as an answer: of Plex it does with a status of success, of a Subsonic
/// server where it reports that all went well.
pub open spec fn counts(server: MediaServerV, well: bool, data: JsonV) -> bool {
    match server {
        MediaServer::Plex { .. } => well,
        MediaServer::Jellyfin { .. } => true,
        MediaServer::Navidrome { .. } => data.at("subsonic-response"@).at("status"@)
            == JsonV::Text("ok"@),
    }
}

/// The document that a server answers with.
pub open spec fn answer(server: MediaServerV, reply: ReplyV) -> Option<JsonV> {
    match document_of(reply) {
        Err(_) => None,
        Ok(data) => if counts(server, went_well(reply), data) {
            Some(data)
        } else {
            None
        },
    }
}

/// A document that came back, or none.
pub open spec fn came_back(r: Option<Json>) -> Option<JsonV> {
    match r {
        Some(j) => Some(j@),
        None => None,
    }
}

impl MediaServer {
    /// Tells whether a document counts as an answer.
    pub fn accepts(&self, well: bool, data: &Json) -> (r: bool)
        ensures
            r == counts(self@, well, data@),
    {
        match self {
            MediaServer::Plex { .. } => well,
            MediaServer::Jellyfin { .. } => true,
            MediaServer::Navidrome { .. } => data.at("subsonic-response").at("status").is_text(
                "ok",
            ),
        }
    }

    /// Reads the document that the server answers with.
    pub fn read_answer(&self, reply: &Reply) -> (r: Option<Json>)
        ensures
            came_back(r) == answer(self@, reply@),
    {
        let data = match document(reply) {
            Ok(data) => data,
            Err(_) => return None,
        };
        let well = match reply {
            Reply::Answered { status, .. } => is_success(*status),
            Reply::Unreachable(_) => false,
        };
        if self.accepts(well, &data) {
            Some(data)
        } else {
            None
        }
    }
}

// ---- Connecting ----------------------------------------------------------------------------

/// A server that the bot is connected to. Of Plex it holds the music section and the identifier
/// of the machine, which searching and creating take.
pub struct ServerSession {
    server: MediaServer,
    plex_section: String,
    plex_machine: String,
}

/// A server that the bot is connected to.
pub ghost struct ServerSessionV {
    pub server: MediaServerV,
    pub section: Seq<char>,
    pub machine: Seq<char>,
}

impl View for ServerSession {
    type V = ServerSessionV;

    closed spec fn view(&self) -> ServerSessionV {
        ServerSessionV {
            server: self.server@,
            section: self.plex_section@,
            machine: self.plex_machine@,
        }
    }
}

/// How a connection begins: it is there, or the server has to tell who it is.
pub enum Connecting {
    Ready(ServerSession),
    Identify(Call),
}

/// The identifier that a Plex server gives of itself.
pub open spec fn identifier(data: JsonV) -> Result<Seq<char>, Seq<char>> {
    match data.at("MediaContainer"@).at("machineIdentifier"@).text() {
        Some(machine) => Ok(machine),
        None => Err("Plex /identity returned no machineIdentifier"@),
    }
}

/// The identifier of a Plex server, out of its answer to `/identity`.
pub open spec fn machine_in(server: MediaServerV, reply: ReplyV) -> Result<Seq<char>, Seq<char>> {
    match answer(server, reply) {
        None => Err("Plex unreachable (GET /identity failed)"@),
        Some(data) => identifier(data),
    }
}

/// Reads the identifier that a Plex server gives of itself.
pub fn read_identifier(data: &Json) -> (r: Result<String, String>)
    ensures
        told(r) == identifier(data@),
{
    match data.at("MediaContainer").at("machineIdentifier").to_text() {
        Some(machine) => Ok(machine),
        None => Err("Plex /identity returned no machineIdentifier".to_owned()),
    }
}

/// The first section that holds artists.
pub open spec fn first_music_section(sections: Seq<JsonV>) -> Option<JsonV>
    decreases sections.len(),
{
    if sections.len() == 0 {
        None
    } else {
        match first_music_section(sections.drop_last()) {
            Some(section) => Some(section),
            None => if sections.last().at("type"@) == JsonV::Text("artist"@) {
                Some(sections.last())
            } else {
                None
            },
        }
    }
}

/// The sections that a Plex server lists.
pub open spec fn sections_in(data: JsonV) -> Option<Seq<JsonV>> {
    data.at("MediaContainer"@).at("Directory"@).items()
}

/// The key of the music section among those that a Plex server lists.
pub open spec fn music_section(data: JsonV) -> Result<Seq<char>, Seq<char>> {
    let section = match sections_in(data) {
        Some(sections) => first_music_section(sections),
        None => None,
    };
    match section {
        Some(found) => match found.at("key"@).text() {
            Some(key) => Ok(key),
            None => Err("No music library found on the Plex server"@),
        },
        None => Err("No music library found on the Plex server"@),
    }
}

/// The key of the music section of a Plex server, out of its answer.
pub open spec fn section_in(server: MediaServerV, reply: ReplyV) -> Result<Seq<char>, Seq<char>> {
    match answer(server, reply) {
        None => Err("Plex GET /library/sections failed"@),
        Some(data) => music_section(data),
    }
}

/// A connection that takes nothing to begin.
pub open spec fn ready_session(server: MediaServerV) -> ServerSessionV {
    ServerSessionV { server, section: Seq::empty(), machine: Seq::empty() }
}

/// The connection to a Plex server of the given identifier, once it has listed its sections.
pub open spec fn plex_session(
    server: MediaServerV,
    machine: Seq<char>,
    reply: ReplyV,
) -> Result<ServerSessionV, Seq<char>> {
    match section_in(server, reply) {
        Ok(section) => Ok(ServerSessionV { server, section, machine }),
        Err(e) => Err(e),
    }
}

/// The call that asks a Plex server who it is.
pub open spec fn identity_call() -> CallV {
    plain_call(Method::Get, "/identity"@, Seq::empty(), true)
}

/// The call for the sections of a Plex server.
pub open spec fn sections_call() -> CallV {
    plain_call(Method::Get, "/library/sections"@, Seq::empty(), true)
}

fn find_music_section(sections: &Vec<Json>) -> (r: Option<&Json>)
    ensures
        match r {
            Some(j) => first_music_section(values(sections@)) == Some(j@),
            None => first_music_section(values(sections@)) is None,
        },
{
    let ghost all = values(sections@);
    let mut found: Option<&Json> = None;
    let mut i: usize = 0;
    while i < sections.len()
        invariant
            i <= sections@.len(),
            all == values(sections@),
            match found {
                Some(j) => first_music_section(all.take(i as int)) == Some(j@),
                None => first_music_section(all.take(i as int)) is None,
            },
        decreases sections@.len() - i,
    {
        assert(all.take(i + 1).drop_last() =~= all.take(i as int));
        assert(all.take(i + 1).last() == sections@[i as int]@);
        if found.is_none() && sections[i].at("type").is_text("artist") {
            found = Some(&sections[i]);
        }
        i = i + 1;
    }
    assert(all.take(i as int) =~= all);
    found
}

/// Reads the key of the music section among those that a Plex server lists.
pub fn read_music_section(data: &Json) -> (r: Result<String, String>)
    ensures
        told(r) == music_section(data@),
{
    let found = match data.at("MediaContainer").at("Directory").as_array() {
        Some(sections) => find_music_section(sections),
        None => None,
    };
    let key = match found {
        Some(section) => section.at("key").to_text(),
        None => None,
    };
    match key {
        Some(key) => Ok(key),
        None => Err("No music library found on the Plex server".to_owned()),
    }
}

impl MediaServer {
    /// Begins a connection. Only Plex has to be asked who it is.
    pub fn connect(&self) -> (r: Connecting)
        ensures
            match r {
                Connecting::Ready(session) => {
                    &&& !(self@ is Plex)
                    &&& session@ == ready_session(self@)
                },
                Connecting::Identify(call) => {
                    &&& self@ is Plex
                    &&& call@ == identity_call()
                },
            },
    {
        match self {
            MediaServer::Plex { .. } => Connecting::Identify(
                plain(Method::Get, "/identity".to_owned(), no_query(), true),
            ),
            _ => Connecting::Ready(
                ServerSession {
                    server: self.copy(),
                    plex_section: String::new(),
                    plex_machine: String::new(),
                },
            ),
        }
    }

    /// Goes on once the server has told who it is: its sections are asked for.
    pub fn connect_identity(&self, reply: &Reply) -> (r: Result<(String, Call), String>)
        ensures
            match r {
                Ok((machine, call)) => {
                    &&& machine_in(self@, reply@) == Ok::<Seq<char>, Seq<char>>(machine@)
                    &&& call@ == sections_call()
                },
                Err(e) => machine_in(self@, reply@) == Err::<Seq<char>, Seq<char>>(e@),
            },
    {
        let data = match self.read_answer(reply) {
            Some(data) => data,
            None => return Err("Plex unreachable (GET /identity failed)".to_owned()),
        };
        match read_identifier(&data) {
            Ok(machine) => Ok(
                (machine, plain(Method::Get, "/library/sections".to_owned(), no_query(), true)),
            ),
            Err(e) => Err(e),
        }
    }

    /// Ends with the list of sections: the connection is there once the music section is known.
    pub fn connect_sections(&self, machine: String, reply: &Reply) -> (r: Result<
        ServerSession,
        String,
    >)
        ensures
            match r {
                Ok(session) => plex_session(self@, machine@, reply@) == Ok::<
                    ServerSessionV,
                    Seq<char>,
                >(session@),
                Err(e) => plex_session(self@, machine@, reply@) == Err::<
                    ServerSessionV,
                    Seq<char>,
                >(e@),
            },
    {
        let data = match self.read_answer(reply) {
            Some(data) => data,
            None => return Err("Plex GET /library/sections failed".to_owned()),
        };
        match read_music_section(&data) {
            Ok(key) => Ok(
                ServerSession { server: self.copy(), plex_section: key, plex_machine: machine },
            ),
            Err(e) => Err(e),
        }
    }
}

// ---- Scanning ------------------------------------------------------------------------------

/// The call that starts a scan of the library.
pub open spec fn scan_call(session: ServerSessionV) -> CallV {
    match session.server {
        MediaServer::Plex { .. } => plain_call(
            Method::Get,
            "/library/sections/"@ + session.section + "/refresh"@,
            Seq::empty(),
            false,
        ),
        MediaServer::Jellyfin { .. } => plain_call(
            Method::Post,
            "/Library/Refresh"@,
            Seq::empty(),
            false,
        ),
        MediaServer::Navidrome { .. } => plain_call(
            Method::Get,
            "/rest/startScan"@,
            Seq::empty(),
            true,
        ),
    }
}

/// The call that asks whether a scan is going on. Jellyfin has none.
pub open spec fn scan_status_call(session: ServerSessionV) -> Option<CallV> {
    match session.server {
        MediaServer::Plex { .. } => Some(sections_call()),
        MediaServer::Jellyfin { .. } => None,
        MediaServer::Navidrome { .. } => Some(
            plain_call(Method::Get, "/rest/getScanStatus"@, Seq::empty(), true),
        ),
    }
}

/// One of the sections is the given one, and it is being refreshed.
pub open spec fn refreshing(sections: Seq<JsonV>, key: Seq<char>) -> bool {
    exists|i: int|
        0 <= i < sections.len() && (#[trigger] sections[i]).at("key"@) == JsonV::Text(key)
            && sections[i].at("refreshing"@).is_true()
}

/// Whether a scan is going on, by the document that the server answers with.
pub open spec fn reports_scan(session: ServerSessionV, data: JsonV) -> bool {
    match session.server {
        MediaServer::Plex { .. } => match sections_in(data) {
            Some(sections) => refreshing(sections, session.section),
            None => false,
        },
        MediaServer::Jellyfin { .. } => false,
        MediaServer::Navidrome { .. } => data.at("subsonic-response"@).at("scanStatus"@).at(
            "scanning"@,
        ).is_true(),
    }
}

/// Whether a scan is going on, by the server's reply.
pub open spec fn scanning(session: ServerSessionV, reply: ReplyV) -> bool {
    match answer(session.server, reply) {
        None => false,
        Some(data) => reports_scan(session, data),
    }
}

/// A call to be made, or none.
pub open spec fn to_make(r: Option<Call>) -> Option<CallV> {
    match r {
        Some(c) => Some(c@),
        None => None,
    }
}

fn is_refreshing(sections: &Vec<Json>, key: &str) -> (r: bool)
    ensures
        r == refreshing(values(sections@), key@),
{
    let mut i: usize = 0;
    while i < sections.len()
        invariant
            i <= sections@.len(),
            forall|j: int|
                0 <= j < i ==> !((#[trigger] values(sections@)[j]).at("key"@) == JsonV::Text(key@)
                    && values(sections@)[j].at("refreshing"@).is_true()),
        decreases sections@.len() - i,
    {
        assert(values(sections@)[i as int] == sections@[i as int]@);
        if sections[i].at("key").is_text(key) && sections[i].at("refreshing").is_true() {
            return true;
        }
        i = i + 1;
    }
    false
}

impl ServerSession {
    /// The server of the session.
    pub fn server(&self) -> (r: &MediaServer)
        ensures
            r@ == self@.server,
    {
        &self.server
    }

    /// Starts a scan of the library.
    pub fn trigger_scan(&self) -> (r: Call)
        ensures
            r@ == scan_call(self@),
    {
        match &self.server {
            MediaServer::Plex { .. } => plain(
                Method::Get,
                cat3("/library/sections/", self.plex_section.as_str(), "/refresh"),
                no_query(),
                false,
            ),
            MediaServer::Jellyfin { .. } => plain(
                Method::Post,
                "/Library/Refresh".to_owned(),
                no_query(),
                false,
            ),
            MediaServer::Navidrome { .. } => plain(
                Method::Get,
                "/rest/startScan".to_owned(),
                no_query(),
                true,
            ),
        }
    }

    /// Asks whether a scan is going on. No call stands for no.
    pub fn scan_in_progress(&self) -> (r: Option<Call>)
        ensures
            to_make(r) == scan_status_call(self@),
    {
        match &self.server {
            MediaServer::Plex { .. } => Some(
                plain(Method::Get, "/library/sections".to_owned(), no_query(), true),
            ),
            MediaServer::Jellyfin { .. } => None,
            MediaServer::Navidrome { .. } => Some(
                plain(Method::Get, "/rest/getScanStatus".to_owned(), no_query(), true),
            ),
        }
    }

    /// Reads whether a scan is going on, out of the document that the server answers with.
    pub fn read_scan(&self, data: &Json) -> (r: bool)
        ensures
            r == reports_scan(self@, data@),
    {
        match &self.server {
            MediaServer::Plex { .. } => match data.at("MediaContainer").at(
                "Directory",
            ).as_array() {
                Some(sections) => is_refreshing(sections, self.plex_section.as_str()),
                None => false,
            },
            MediaServer::Jellyfin { .. } => false,
            MediaServer::Navidrome { .. } => data.at("subsonic-response").at("scanStatus").at(
                "scanning",
            ).is_true(),
        }
    }

    /// Reads whether a scan is going on.
    pub fn scan_reply(&self, reply: &Reply) -> (r: bool)
        ensures
            r == scanning(self@, reply@),
    {
        match self.server.read_answer(reply) {
            Some(data) => self.read_scan(&data),
            None => false,
        }
    }
}

// ---- Finding a track -----------------------------------------------------------------------

/// One of the two names is part of the other.
pub open spec fn names_agree(have: Seq<char>, want: Seq<char>) -> bool {
    contains(have, want) || (contains(want, trimmed(have)) && trimmed(have).len() > 0)
}

/// An item credited to `have` may be by the artist: the names agree, whatever their case.
pub open spec fn credit_matches(have: Seq<char>, artist: Seq<char>) -> bool {
    names_agree(lowercase(have), lowercase(artist))
}

/// The first item whose credit may be the artist's.
pub open spec fn first_match(credits: Seq<Seq<char>>, artist: Seq<char>) -> Option<int>
    decreases credits.len(),
{
    if credits.len() == 0 {
        None
    } else {
        match first_match(credits.drop_last(), artist) {
            Some(i) => Some(i),
            None => if credit_matches(credits.last(), artist) {
                Some(credits.len() - 1)
            } else {
                None
            },
        }
    }
}

/// The item that is taken: the first that may be by the artist, where an artist is asked for,
/// else the first of all.
pub open spec fn picked(credits: Seq<Seq<char>>, artist: Seq<char>) -> Option<int> {
    if credits.len() == 0 {
        None
    } else if artist.len() == 0 {
        Some(0)
    } else {
        match first_match(credits, artist) {
            Some(i) => Some(i),
            None => Some(0),
        }
    }
}

/// Tells whether one of two names is part of the other.
pub fn agree(have: &str, want: &str) -> (r: bool)
    ensures
        r == names_agree(have@, want@),
{
    if has(have, want) {
        return true;
    }
    let bare = trim(have);
    has(want, bare.as_str()) && !bare.as_str().is_empty()
}

/// Picks an item by the credits of the items: one that may be by the artist is preferred, else
/// the first is taken.
pub fn pick_match(credits: &Vec<String>, artist: &str) -> (r: Option<usize>)
    ensures
        match r {
            Some(i) => picked(texts(credits@), artist@) == Some(i as int) && i < credits@.len(),
            None => picked(texts(credits@), artist@) is None,
        },
{
    if credits.len() == 0 {
        return None;
    }
    if !artist.is_empty() {
        let ghost all = texts(credits@);
        let want = artist.to_lowercase();
        let mut i: usize = 0;
        while i < credits.len()
            invariant
                i <= credits@.len(),
                all == texts(credits@),
                artist@.len() > 0,
                want@ == lowercase(artist@),
                first_match(all.take(i as int), artist@) is None,
            decreases credits@.len() - i,
        {
            assert(all.take(i + 1).drop_last() =~= all.take(i as int));
            assert(all.take(i + 1).last() == credits@[i as int]@);
            if agree(credits[i].as_str().to_lowercase().as_str(), want.as_str()) {
                proof {
                    match_stays_first(all.take(i + 1), all, artist@);
                }
                return Some(i);
            }
            i = i + 1;
        }
        assert(all.take(i as int) =~= all);
    }
    Some(0)
}

/// The first match of a list stays the first match of a longer one.
proof fn match_stays_first(short: Seq<Seq<char>>, long: Seq<Seq<char>>, artist: Seq<char>)
    requires
        short.len() <= long.len(),
        short == long.take(short.len() as int),
        first_match(short, artist) is Some,
    ensures
        first_match(long, artist) == first_match(short, artist),
    decreases long.len(),
{
    if short.len() < long.len() {
        assert(long.drop_last().take(short.len() as int) =~= short);
        match_stays_first(short, long.drop_last(), artist);
    } else {
        assert(short =~= long);
    }
}

/// Where some item may be by the artist, the item that is taken may be, and none before it; where
/// none may be, or no artist is asked for, it is the first.
pub proof fn matching_artist_is_preferred(credits: Seq<Seq<char>>, artist: Seq<char>)
    requires
        credits.len() > 0,
    ensures
        match picked(credits, artist) {
            Some(i) => {
                &&& 0 <= i < credits.len()
                &&& artist.len() > 0 && (exists|k: int|
                    0 <= k < credits.len() && credit_matches(#[trigger] credits[k], artist)) ==> {
                    &&& credit_matches(credits[i], artist)
                    &&& forall|k: int|
                        0 <= k < i ==> !credit_matches(#[trigger] credits[k], artist)
                }
                &&& artist.len() == 0 || (forall|k: int|
                    0 <= k < credits.len() ==> !credit_matches(#[trigger] credits[k], artist))
                    ==> i == 0
            },
            None => false,
        },
{
    first_match_is_first(credits, artist);
}

proof fn first_match_is_first(credits: Seq<Seq<char>>, artist: Seq<char>)
    ensures
        match first_match(credits, artist) {
            Some(i) => {
                &&& 0 <= i < credits.len()
                &&& credit_matches(credits[i], artist)
                &&& forall|k: int| 0 <= k < i ==> !credit_matches(#[trigger] credits[k], artist)
            },
            None => forall|k: int|
                0 <= k < credits.len() ==> !credit_matches(#[trigger] credits[k], artist),
        },
    decreases credits.len(),
{
    if credits.len() > 0 {
        let shorter = credits.drop_last();
        first_match_is_first(shorter, artist);
        assert forall|k: int| 0 <= k < shorter.len() implies credits[k] == #[trigger] shorter[k] by {
        }
        match first_match(shorter, artist) {
            Some(i) => {
                assert forall|k: int| 0 <= k < i implies !credit_matches(
                    #[trigger] credits[k],
                    artist,
                ) by {
                    assert(!credit_matches(shorter[k], artist));
                }
            },
            None => {
                assert forall|k: int| 0 <= k < credits.len() - 1 implies !credit_matches(
                    #[trigger] credits[k],
                    artist,
                ) by {
                    assert(!credit_matches(shorter[k], artist));
                }
            },
        }
    }
}

/// The strings of a list, in order.
pub open spec fn strings(items: Seq<JsonV>) -> Seq<Seq<char>>
    decreases items.len(),
{
    if items.len() == 0 {
        Seq::empty()
    } else {
        match items.last().text() {
            Some(s) => strings(items.drop_last()).push(s),
            None => strings(items.drop_last()),
        }
    }
}

/// Whom an item is credited to.
pub open spec fn credit(server: MediaServerV, item: JsonV) -> Seq<char> {
    match server {
        MediaServer::Plex { .. } => item.at("grandparentTitle"@).text_or(""@) + " "@ + item.at(
            "originalTitle"@,
        ).text_or(""@),
        MediaServer::Jellyfin { .. } => {
            let artists = match item.at("Artists"@).items() {
                Some(items) => joined(strings(items), " "@),
                None => Seq::empty(),
            };
            artists + " "@ + item.at("AlbumArtist"@).text_or(""@)
        },
        MediaServer::Navidrome { .. } => item.at("artist"@).text_or(""@),
    }
}

/// The key of an item of Plex, which may be a text or a number.
pub open spec fn rating_key(item: JsonV) -> Option<Seq<char>> {
    match item.at("ratingKey"@).text() {
        Some(key) => Some(key),
        None => match item.at("ratingKey"@).unsigned() {
            Some(n) => Some(decimal(n as nat)),
            None => None,
        },
    }
}

/// The identifier of an item.
pub open spec fn id_of(server: MediaServerV, item: JsonV) -> Option<Seq<char>> {
    match server {
        MediaServer::Plex { .. } => rating_key(item),
        MediaServer::Jellyfin { .. } => item.at("Id"@).text(),
        MediaServer::Navidrome { .. } => item.at("id"@).text(),
    }
}

/// Whom each item is credited to.
pub open spec fn credits(server: MediaServerV, items: Seq<JsonV>) -> Seq<Seq<char>> {
    items.map_values(|item: JsonV| credit(server, item))
}

/// The identifier of the item that is taken.
pub open spec fn picked_id(
    server: MediaServerV,
    items: Seq<JsonV>,
    artist: Seq<char>,
) -> Option<Seq<char>> {
    match picked(credits(server, items), artist) {
        Some(i) => id_of(server, items[i]),
        None => None,
    }
}

fn collect_strings(items: &Vec<Json>) -> (r: Vec<String>)
    ensures
        texts(r@) == strings(values(items@)),
{
    let ghost all = values(items@);
    let mut out: Vec<String> = Vec::new();
    let mut i: usize = 0;
    assert(texts(out@) =~= strings(all.take(0)));
    while i < items.len()
        invariant
            i <= items@.len(),
            all == values(items@),
            texts(out@) == strings(all.take(i as int)),
        decreases items@.len() - i,
    {
        assert(all.take(i + 1).drop_last() =~= all.take(i as int));
        assert(all.take(i + 1).last() == items@[i as int]@);
        match items[i].to_text() {
            Some(s) => {
                let ghost before = out@;
                out.push(s);
                assert(texts(out@) =~= texts(before).push(s@));
            },
            None => {},
        }
        i = i + 1;
    }
    assert(all.take(i as int) =~= all);
    out
}

/// Reads the key of an item of Plex.
pub fn plex_rating_key(item: &Json) -> (r: Option<String>)
    ensures
        given(r) == rating_key(item@),
{
    match item.at("ratingKey").to_text() {
        Some(key) => Some(key),
        None => match item.at("ratingKey").as_u64() {
            Some(n) => Some(write_decimal(n)),
            None => None,
        },
    }
}

impl MediaServer {
    fn read_credit(&self, item: &Json) -> (r: String)
        ensures
            r@ == credit(self@, item@),
    {
        match self {
            MediaServer::Plex { .. } => {
                let album = item.at("grandparentTitle").text_or("");
                let own = item.at("originalTitle").text_or("");
                cat3(album.as_str(), " ", own.as_str())
            },
            MediaServer::Jellyfin { .. } => {
                let artists = match item.at("Artists").as_array() {
                    Some(items) => join(&collect_strings(items), " "),
                    None => String::new(),
                };
                let album = item.at("AlbumArtist").text_or("");
                cat3(artists.as_str(), " ", album.as_str())
            },
            MediaServer::Navidrome { .. } => item.at("artist").text_or(""),
        }
    }

    fn read_id(&self, item: &Json) -> (r: Option<String>)
        ensures
            given(r) == id_of(self@, item@),
    {
        match self {
            MediaServer::Plex { .. } => plex_rating_key(item),
            MediaServer::Jellyfin { .. } => item.at("Id").to_text(),
            MediaServer::Navidrome { .. } => item.at("id").to_text(),
        }
    }

    fn pick_id(&self, items: &Vec<Json>, artist: &str) -> (r: Option<String>)
        ensures
            given(r) == picked_id(self@, values(items@), artist@),
    {
        let ghost all = values(items@);
        let mut out: Vec<String> = Vec::new();
        let mut i: usize = 0;
        while i < items.len()
            invariant
                i <= items@.len(),
                all == values(items@),
                texts(out@) == credits(self@, all.take(i as int)),
            decreases items@.len() - i,
        {
            let one = self.read_credit(&items[i]);
            let ghost before = out@;
            out.push(one);
            assert(texts(out@) =~= texts(before).push(one@));
            assert(credits(self@, all.take(i + 1)) =~= credits(self@, all.take(i as int)).push(
                one@,
            ));
            i = i + 1;
        }
        assert(all.take(i as int) =~= all);
        match pick_match(&out, artist) {
            Some(k) => {
                assert(texts(out@).len() == credits(self@, all).len());
                self.read_id(&items[k])
            },
            None => None,
        }
    }
}

/// The call that searches a Subsonic server.
pub open spec fn subsonic_search(query: Seq<char>) -> CallV {
    plain_call(
        Method::Get,
        "/rest/search3"@,
        seq![
            ("query"@, query),
            ("songCount"@, "10"@),
            ("artistCount"@, "0"@),
            ("albumCount"@, "0"@),
        ],
        true,
    )
}

/// The call that looks for a track by title and artist.
pub open spec fn find_call(
    session: ServerSessionV,
    title: Seq<char>,
    artist: Seq<char>,
) -> CallV {
    match session.server {
        MediaServer::Plex { .. } => plain_call(
            Method::Get,
            "/library/sections/"@ + session.section + "/all"@,
            seq![("type"@, "10"@), ("title"@, title)],
            true,
        ),
        MediaServer::Jellyfin { user_id, .. } => plain_call(
            Method::Get,
            "/Items"@,
            seq![
                ("IncludeItemTypes"@, "Audio"@),
                ("Recursive"@, "true"@),
                ("SearchTerm"@, title),
                ("Limit"@, "10"@),
                ("UserId"@, user_id),
            ],
            true,
        ),
        MediaServer::Navidrome { .. } => subsonic_search(
            if artist.len() == 0 {
                title
            } else {
                title + " "@ + artist
            },
        ),
    }
}

/// The items that a server lists in answer to a search for a track.
pub open spec fn items_found(server: MediaServerV, data: JsonV) -> Seq<JsonV> {
    let list = match server {
        MediaServer::Plex { .. } => data.at("MediaContainer"@).at("Metadata"@).items(),
        MediaServer::Jellyfin { .. } => data.at("Items"@).items(),
        MediaServer::Navidrome { .. } => data.at("subsonic-response"@).at("searchResult3"@).at(
            "song"@,
        ).items(),
    };
    match list {
        Some(items) => items,
        None => Seq::empty(),
    }
}

/// What comes of a search for a track: an item or none, or a second search.
#[derive(Debug, PartialEq)]
pub enum Finding {
    Settled(Option<String>),
    SearchAgain(Call),
}

/// What comes of a search for a track.
pub ghost enum FindingV {
    Settled(Option<Seq<char>>),
    SearchAgain(CallV),
}

impl View for Finding {
    type V = FindingV;

    open spec fn view(&self) -> FindingV {
        match self {
            Finding::Settled(id) => FindingV::Settled(given(*id)),
            Finding::SearchAgain(call) => FindingV::SearchAgain(call@),
        }
    }
}

/// What came of a search: a Subsonic server that found nothing by title and artist is asked once
/// more, by the title alone.
pub open spec fn finding(
    session: ServerSessionV,
    title: Seq<char>,
    artist: Seq<char>,
    again: bool,
    data: JsonV,
) -> FindingV {
    let items = items_found(session.server, data);
    if session.server is Navidrome && items.len() == 0 && artist.len() > 0 && !again {
        FindingV::SearchAgain(subsonic_search(title))
    } else {
        FindingV::Settled(picked_id(session.server, items, artist))
    }
}

/// The document that a server answers with, null where it does not answer.
pub open spec fn answer_or_null(server: MediaServerV, reply: ReplyV) -> JsonV {
    match answer(server, reply) {
        Some(data) => data,
        None => JsonV::Null,
    }
}

/// What a reply to a search means.
pub open spec fn find_outcome(
    session: ServerSessionV,
    title: Seq<char>,
    artist: Seq<char>,
    again: bool,
    reply: ReplyV,
) -> FindingV {
    finding(session, title, artist, again, answer_or_null(session.server, reply))
}

fn search_subsonic(query: &str) -> (r: Call)
    ensures
        r@ == subsonic_search(query@),
{
    let q: Vec<(String, String)> = vec![
        pair("query", query),
        pair("songCount", "10"),
        pair("artistCount", "0"),
        pair("albumCount", "0"),
    ];
    assert(pairs(q@) =~= subsonic_search(query@).query);
    plain(Method::Get, "/rest/search3".to_owned(), q, true)
}

impl ServerSession {
    /// Looks for a track by title and artist.
    pub fn find_track(&self, title: &str, artist: &str) -> (r: Call)
        ensures
            r@ == find_call(self@, title@, artist@),
    {
        match &self.server {
            MediaServer::Plex { .. } => {
                let q: Vec<(String, String)> = vec![pair("type", "10"), pair("title", title)];
                assert(pairs(q@) =~= seq![("type"@, "10"@), ("title"@, title@)]);
                let path = cat3("/library/sections/", self.plex_section.as_str(), "/all");
                plain(Method::Get, path, q, true)
            },
            MediaServer::Jellyfin { user_id, .. } => {
                let q: Vec<(String, String)> = vec![
                    pair("IncludeItemTypes", "Audio"),
                    pair("Recursive", "true"),
                    pair("SearchTerm", title),
                    pair("Limit", "10"),
                    pair("UserId", user_id.as_str()),
                ];
                assert(pairs(q@) =~= find_call(self@, title@, artist@).query);
                plain(Method::Get, "/Items".to_owned(), q, true)
            },
            MediaServer::Navidrome { .. } => {
                let query = if artist.is_empty() {
                    title.to_owned()
                } else {
                    cat3(title, " ", artist)
                };
                search_subsonic(query.as_str())
            },
        }
    }

    /// Reads the identifier of the track out of the document that the server answers with, or says
    /// how to go on. `again` tells that this is the answer to the second search.
    pub fn read_found(&self, title: &str, artist: &str, again: bool, data: &Json) -> (r: Finding)
        ensures
            r@ == finding(self@, title@, artist@, again, data@),
    {
        let none: Vec<Json> = Vec::new();
        assert(values(none@) =~= Seq::empty());
        let list = match &self.server {
            MediaServer::Plex { .. } => data.at("MediaContainer").at("Metadata").as_array(),
            MediaServer::Jellyfin { .. } => data.at("Items").as_array(),
            MediaServer::Navidrome { .. } => data.at("subsonic-response").at("searchResult3").at(
                "song",
            ).as_array(),
        };
        let items = match list {
            Some(items) => items,
            None => &none,
        };
        let second = match &self.server {
            MediaServer::Navidrome { .. } => items.len() == 0 && !artist.is_empty() && !again,
            _ => false,
        };
        if second {
            Finding::SearchAgain(search_subsonic(title))
        } else {
            Finding::Settled(self.server.pick_id(items, artist))
        }
    }

    /// Reads the identifier of the track out of the reply, or says how to go on.
    pub fn find_track_reply(&self, title: &str, artist: &str, again: bool, reply: &Reply) -> (r:
        Finding)
        ensures
            r@ == find_outcome(self@, title@, artist@, again, reply@),
    {
        let data = match self.server.read_answer(reply) {
            Some(data) => data,
            None => Json::Null,
        };
        self.read_found(title, artist, again, &data)
    }
}

/// At most two searches are made for a track: the second answer settles it.
pub proof fn second_search_settles(
    session: ServerSessionV,
    title: Seq<char>,
    artist: Seq<char>,
    reply: ReplyV,
)
    ensures
        find_outcome(session, title, artist, true, reply) is Settled,
{
}

// ---- Rebuilding a playlist -----------------------------------------------------------------

/// The call that lists the playlists among which one of the name may be.
pub open spec fn list_call(session: ServerSessionV, name: Seq<char>) -> CallV {
    match session.server {
        MediaServer::Plex { .. } => plain_call(
            Method::Get,
            "/playlists"@,
            seq![("playlistType"@, "audio"@)],
            true,
        ),
        MediaServer::Jellyfin { user_id, .. } => plain_call(
            Method::Get,
            "/Items"@,
            seq![
                ("IncludeItemTypes"@, "Playlist"@),
                ("Recursive"@, "true"@),
                ("SearchTerm"@, name),
                ("UserId"@, user_id),
            ],
            true,
        ),
        MediaServer::Navidrome { .. } => plain_call(
            Method::Get,
            "/rest/getPlaylists"@,
            Seq::empty(),
            true,
        ),
    }
}

/// The playlists that a server lists.
pub open spec fn playlists_in(server: MediaServerV, data: JsonV) -> Seq<JsonV> {
    let list = match server {
        MediaServer::Plex { .. } => data.at("MediaContainer"@).at("Metadata"@).items(),
        MediaServer::Jellyfin { .. } => data.at("Items"@).items(),
        MediaServer::Navidrome { .. } => data.at("subsonic-response"@).at("playlists"@).at(
            "playlist"@,
        ).items(),
    };
    match list {
        Some(items) => items,
        None => Seq::empty(),
    }
}

/// The name of a playlist.
pub open spec fn playlist_name(server: MediaServerV, item: JsonV) -> Option<Seq<char>> {
    match server {
        MediaServer::Plex { .. } => item.at("title"@).text(),
        MediaServer::Jellyfin { .. } => item.at("Name"@).text(),
        MediaServer::Navidrome { .. } => item.at("name"@).text(),
    }
}

/// The playlist has the name, but for the case of ASCII letters.
pub open spec fn is_named(server: MediaServerV, item: JsonV, name: Seq<char>) -> bool {
    match playlist_name(server, item) {
        Some(own) => same_but_case(own, name),
        None => false,
    }
}

/// The call that deletes a playlist.
pub open spec fn delete_call(server: MediaServerV, id: Seq<char>) -> CallV {
    match server {
        MediaServer::Plex { .. } => plain_call(
            Method::Delete,
            "/playlists/"@ + id,
            Seq::empty(),
            false,
        ),
        MediaServer::Jellyfin { .. } => plain_call(
            Method::Delete,
            "/Items/"@ + id,
            Seq::empty(),
            false,
        ),
        MediaServer::Navidrome { .. } => plain_call(
            Method::Get,
            "/rest/deletePlaylist"@,
            seq![("id"@, id)],
            true,
        ),
    }
}

/// The calls that delete the playlists of the name, in the order in which they are listed.
pub open spec fn deletions(
    server: MediaServerV,
    items: Seq<JsonV>,
    name: Seq<char>,
) -> Seq<CallV>
    decreases items.len(),
{
    if items.len() == 0 {
        Seq::empty()
    } else {
        let rest = deletions(server, items.drop_last(), name);
        match id_of(server, items.last()) {
            Some(id) => if is_named(server, items.last(), name) {
                rest.push(delete_call(server, id))
            } else {
                rest
            },
            None => rest,
        }
    }
}

/// The parameters that name the songs of a new playlist.
pub open spec fn song_params(ids: Seq<Seq<char>>) -> Seq<(Seq<char>, Seq<char>)> {
    ids.map_values(|id: Seq<char>| ("songId"@, id))
}

/// The items of a new playlist as JSON.
pub open spec fn id_values(ids: Seq<Seq<char>>) -> Seq<JsonV> {
    ids.map_values(|id: Seq<char>| JsonV::Text(id))
}

/// The call that creates a playlist of the given items.
pub open spec fn create_call(
    session: ServerSessionV,
    name: Seq<char>,
    ids: Seq<Seq<char>>,
) -> CallV {
    match session.server {
        MediaServer::Plex { .. } => plain_call(
            Method::Post,
            "/playlists"@,
            seq![
                ("type"@, "audio"@),
                ("title"@, name),
                ("smart"@, "0"@),
                (
                    "uri"@,
                    "server://"@ + session.machine
                        + "/com.plexapp.plugins.library/library/metadata/"@ + joined(ids, ","@),
                ),
            ],
            false,
        ),
        MediaServer::Jellyfin { user_id, .. } => CallV {
            method: Method::Post,
            path: "/Playlists"@,
            query: Seq::empty(),
            body: BodyV::Json(
                JsonV::Object(
                    seq![
                        ("Name"@, JsonV::Text(name)),
                        ("Ids"@, JsonV::Array(id_values(ids))),
                        ("UserId"@, JsonV::Text(user_id)),
                        ("MediaType"@, JsonV::Text("Audio"@)),
                    ],
                ),
            ),
            json: false,
        },
        MediaServer::Navidrome { .. } => plain_call(
            Method::Get,
            "/rest/createPlaylist"@,
            seq![("name"@, name)] + song_params(ids),
            true,
        ),
    }
}

/// The calls that rebuild a playlist: every playlist of the name is deleted, then a new one is
/// created.
pub open spec fn rebuild_calls(
    session: ServerSessionV,
    name: Seq<char>,
    ids: Seq<Seq<char>>,
    data: JsonV,
) -> Seq<CallV> {
    deletions(session.server, playlists_in(session.server, data), name).push(
        create_call(session, name, ids),
    )
}

/// What a reply to the creation of a playlist means.
pub open spec fn creation_outcome(server: MediaServerV, reply: ReplyV) -> Result<(), Seq<char>> {
    match server {
        MediaServer::Plex { .. } => if went_well(reply) {
            Ok(())
        } else {
            Err("Plex rejected the playlist creation"@)
        },
        MediaServer::Jellyfin { .. } => match reply {
            Reply::Unreachable(e) => Err(e),
            Reply::Answered { reason, .. } => if went_well(reply) {
                Ok(())
            } else {
                Err("Jellyfin rejected the playlist creation: "@ + reason)
            },
        },
        MediaServer::Navidrome { .. } => if answer(server, reply) is Some {
            Ok(())
        } else {
            Err("Navidrome rejected the playlist creation"@)
        },
    }
}

impl MediaServer {
    fn named(&self, item: &Json, name: &str) -> (r: bool)
        ensures
            r == is_named(self@, item@, name@),
    {
        let own = match self {
            MediaServer::Plex { .. } => item.at("title").as_str(),
            MediaServer::Jellyfin { .. } => item.at("Name").as_str(),
            MediaServer::Navidrome { .. } => item.at("name").as_str(),
        };
        match own {
            Some(own) => eq_ignore_ascii_case(own, name),
            None => false,
        }
    }

    fn delete(&self, id: &str) -> (r: Call)
        ensures
            r@ == delete_call(self@, id@),
    {
        match self {
            MediaServer::Plex { .. } => plain(
                Method::Delete,
                cat2("/playlists/", id),
                no_query(),
                false,
            ),
            MediaServer::Jellyfin { .. } => plain(
                Method::Delete,
                cat2("/Items/", id),
                no_query(),
                false,
            ),
            MediaServer::Navidrome { .. } => {
                let q: Vec<(String, String)> = vec![pair("id", id)];
                assert(pairs(q@) =~= seq![("id"@, id@)]);
                plain(Method::Get, "/rest/deletePlaylist".to_owned(), q, true)
            },
        }
    }

    fn delete_named(&self, items: &Vec<Json>, name: &str) -> (r: Vec<Call>)
        ensures
            calls(r@) == deletions(self@, values(items@), name@),
    {
        let ghost all = values(items@);
        let mut out: Vec<Call> = Vec::new();
        let mut i: usize = 0;
        assert(calls(out@) =~= deletions(self@, all.take(0), name@));
        while i < items.len()
            invariant
                i <= items@.len(),
                all == values(items@),
                calls(out@) == deletions(self@, all.take(i as int), name@),
            decreases items@.len() - i,
        {
            assert(all.take(i + 1).drop_last() =~= all.take(i as int));
            assert(all.take(i + 1).last() == items@[i as int]@);
            if self.named(&items[i], name) {
                match self.read_id(&items[i]) {
                    Some(id) => {
                        let one = self.delete(id.as_str());
                        let ghost before = out@;
                        out.push(one);
                        assert(calls(out@) =~= calls(before).push(one@));
                    },
                    None => {},
                }
            }
            i = i + 1;
        }
        assert(all.take(i as int) =~= all);
        out
    }
}

impl ServerSession {
    /// Asks for the playlists among which one of the name may be.
    pub fn rebuild_playlist(&self, name: &str) -> (r: Call)
        ensures
            r@ == list_call(self@, name@),
    {
        match &self.server {
            MediaServer::Plex { .. } => {
                let q: Vec<(String, String)> = vec![pair("playlistType", "audio")];
                assert(pairs(q@) =~= seq![("playlistType"@, "audio"@)]);
                plain(Method::Get, "/playlists".to_owned(), q, true)
            },
            MediaServer::Jellyfin { user_id, .. } => {
                let q: Vec<(String, String)> = vec![
                    pair("IncludeItemTypes", "Playlist"),
                    pair("Recursive", "true"),
                    pair("SearchTerm", name),
                    pair("UserId", user_id.as_str()),
                ];
                assert(pairs(q@) =~= list_call(self@, name@).query);
                plain(Method::Get, "/Items".to_owned(), q, true)
            },
            MediaServer::Navidrome { .. } => plain(
                Method::Get,
                "/rest/getPlaylists".to_owned(),
                no_query(),
                true,
            ),
        }
    }

    fn create(&self, name: &str, ids: &Vec<String>) -> (r: Call)
        ensures
            r@ == create_call(self@, name@, texts(ids@)),
    {
        match &self.server {
            MediaServer::Plex { .. } => {
                let all = join(ids, ",");
                let uri = cat4(
                    "server://",
                    self.plex_machine.as_str(),
                    "/com.plexapp.plugins.library/library/metadata/",
                    all.as_str(),
                );
                let q: Vec<(String, String)> = vec![
                    pair("type", "audio"),
                    pair("title", name),
                    pair("smart", "0"),
                    pair("uri", uri.as_str()),
                ];
                assert(pairs(q@) =~= create_call(self@, name@, texts(ids@)).query);
                plain(Method::Post, "/playlists".to_owned(), q, false)
            },
            MediaServer::Jellyfin { user_id, .. } => {
                let mut list: Vec<Json> = Vec::new();
                let mut i: usize = 0;
                while i < ids.len()
                    invariant
                        i <= ids@.len(),
                        list@.len() == i,
                        forall|k: int| 0 <= k < i ==> (#[trigger] list@[k])@ == JsonV::Text(ids@[k]@),
                    decreases ids@.len() - i,
                {
                    list.push(Json::Text(ids[i].clone()));
                    i = i + 1;
                }
                assert(values(list@) =~= id_values(texts(ids@)));
                let entries: Vec<(String, Json)> = vec![
                    ("Name".to_owned(), Json::Text(name.to_owned())),
                    ("Ids".to_owned(), Json::array(list)),
                    ("UserId".to_owned(), Json::Text(user_id.clone())),
                    ("MediaType".to_owned(), Json::Text("Audio".to_owned())),
                ];
                assert(members(entries@) =~= seq![
                    ("Name"@, JsonV::Text(name@)),
                    ("Ids"@, JsonV::Array(id_values(texts(ids@)))),
                    ("UserId"@, JsonV::Text(user_id@)),
                    ("MediaType"@, JsonV::Text("Audio"@)),
                ]);
                Call {
                    method: Method::Post,
                    path: "/Playlists".to_owned(),
                    query: no_query(),
                    body: Body::Json(Json::object(entries)),
                    json: false,
                }
            },
            MediaServer::Navidrome { .. } => {
                let mut q: Vec<(String, String)> = vec![pair("name", name)];
                let mut i: usize = 0;
                assert(pairs(q@) =~= seq![("name"@, name@)] + song_params(texts(ids@).take(0)));
                while i < ids.len()
                    invariant
                        i <= ids@.len(),
                        pairs(q@) == seq![("name"@, name@)] + song_params(
                            texts(ids@).take(i as int),
                        ),
                    decreases ids@.len() - i,
                {
                    let ghost before = q@;
                    q.push(pair("songId", ids[i].as_str()));
                    assert(pairs(q@) =~= pairs(before).push(("songId"@, ids@[i as int]@)));
                    assert(song_params(texts(ids@).take(i + 1)) =~= song_params(
                        texts(ids@).take(i as int),
                    ).push(("songId"@, ids@[i as int]@)));
                    i = i + 1;
                }
                assert(texts(ids@).take(i as int) =~= texts(ids@));
                plain(Method::Get, "/rest/createPlaylist".to_owned(), q, true)
            },
        }
    }

    /// The calls that rebuild a playlist, by the document that lists the playlists.
    pub fn plan_rebuild(&self, name: &str, ids: &Vec<String>, data: &Json) -> (r: Vec<Call>)
        ensures
            calls(r@) == rebuild_calls(self@, name@, texts(ids@), data@),
    {
        let none: Vec<Json> = Vec::new();
        assert(values(none@) =~= Seq::empty());
        let list = match &self.server {
            MediaServer::Plex { .. } => data.at("MediaContainer").at("Metadata").as_array(),
            MediaServer::Jellyfin { .. } => data.at("Items").as_array(),
            MediaServer::Navidrome { .. } => data.at("subsonic-response").at("playlists").at(
                "playlist",
            ).as_array(),
        };
        let items = match list {
            Some(items) => items,
            None => &none,
        };
        let mut plan = self.server.delete_named(items, name);
        let ghost before = plan@;
        let last = self.create(name, ids);
        plan.push(last);
        assert(calls(plan@) =~= calls(before).push(last@));
        plan
    }

    /// The calls that rebuild a playlist once the playlists are listed, in the order in which
    /// they are to be made. The reply to the last call tells how it went.
    pub fn rebuild_plan(&self, name: &str, ids: &Vec<String>, listing: &Reply) -> (r: Vec<Call>)
        ensures
            calls(r@) == rebuild_calls(
                self@,
                name@,
                texts(ids@),
                answer_or_null(self@.server, listing@),
            ),
    {
        let data = match self.server.read_answer(listing) {
            Some(data) => data,
            None => Json::Null,
        };
        self.plan_rebuild(name, ids, &data)
    }

    /// Reads how the creation of a playlist went.
    pub fn rebuild_reply(&self, reply: &Reply) -> (r: Result<(), String>)
        ensures
            crate::deemix::outcome(r) == creation_outcome(self@.server, reply@),
    {
        match &self.server {
            MediaServer::Plex { .. } => match reply {
                Reply::Answered { status, .. } => if is_success(*status) {
                    Ok(())
                } else {
                    Err("Plex rejected the playlist creation".to_owned())
                },
                Reply::Unreachable(_) => Err("Plex rejected the playlist creation".to_owned()),
            },
            MediaServer::Jellyfin { .. } => match reply {
                Reply::Unreachable(e) => Err(e.clone()),
                Reply::Answered { status, reason, .. } => if is_success(*status) {
                    Ok(())
                } else {
                    Err(cat2("Jellyfin rejected the playlist creation: ", reason.as_str()))
                },
            },
            MediaServer::Navidrome { .. } => match self.server.read_answer(reply) {
                Some(_) => Ok(()),
                None => Err("Navidrome rejected the playlist creation".to_owned()),
            },
        }
    }
}

/// Only playlists of the name are deleted, and every one of them that has an identifier is.
pub proof fn deletions_are_the_named(server: MediaServerV, items: Seq<JsonV>, name: Seq<char>)
    ensures
        forall|c: CallV| #[trigger]
            deletions(server, items, name).contains(c) <==> exists|i: int|
                0 <= i < items.len() && is_named(server, #[trigger] items[i], name) && id_of(
                    server,
                    items[i],
                ) is Some && c == delete_call(server, id_of(server, items[i])->0),
    decreases items.len(),
{
    if items.len() > 0 {
        let shorter = items.drop_last();
        deletions_are_the_named(server, shorter, name);
        assert forall|c: CallV| #[trigger]
            deletions(server, items, name).contains(c) <==> exists|i: int|
                0 <= i < items.len() && is_named(server, #[trigger] items[i], name) && id_of(
                    server,
                    items[i],
                ) is Some && c == delete_call(server, id_of(server, items[i])->0) by {
            let all = deletions(server, items, name);
            let rest = deletions(server, shorter, name);
            let last = items.len() - 1;
            if all.contains(c) {
                let k = choose|k: int| 0 <= k < all.len() && all[k] == c;
                if k < rest.len() {
                    assert(rest[k] == c);
                    assert(rest.contains(c));
                    let i = choose|i: int|
                        0 <= i < shorter.len() && is_named(server, #[trigger] shorter[i], name)
                            && id_of(server, shorter[i]) is Some && c == delete_call(
                            server,
                            id_of(server, shorter[i])->0,
                        );
                    assert(items[i] == shorter[i]);
                } else {
                    assert(items[last] == items.last());
                }
            }
            if exists|i: int|
                0 <= i < items.len() && is_named(server, #[trigger] items[i], name) && id_of(
                    server,
                    items[i],
                ) is Some && c == delete_call(server, id_of(server, items[i])->0) {
                let i = choose|i: int|
                    0 <= i < items.len() && is_named(server, #[trigger] items[i], name) && id_of(
                        server,
                        items[i],
                    ) is Some && c == delete_call(server, id_of(server, items[i])->0);
                if i < last {
                    assert(shorter[i] == items[i]);
                    assert(rest.contains(c));
                    let k = choose|k: int| 0 <= k < rest.len() && rest[k] == c;
                    assert(all[k] == c);
                } else {
                    assert(all[rest.len() as int] == c);
                }
            }
        }
    } else {
        assert forall|c: CallV| !(#[trigger] deletions(server, items, name).contains(c)) by {
        }
    }
}

// ---- Laws of the configuration -------------------------------------------------------------

/// A value that may be taken as it is: without white space around it and slashes behind it.
pub open spec fn is_clean(s: Seq<char>) -> bool {
    s.len() > 0 && !is_white_space(s[0]) && !is_white_space(s.last()) && s.last() != '/'
}

/// A setting is taken out of the white space around it and the slashes behind it.
pub proof fn settings_are_cleaned(
    vars: Seq<(Seq<char>, Seq<char>)>,
    name: Seq<char>,
    before: Seq<char>,
    value: Seq<char>,
    slashes: Seq<char>,
    behind: Seq<char>,
)
    requires
        is_clean(value),
        forall|i: int| 0 <= i < before.len() ==> is_white_space(#[trigger] before[i]),
        forall|i: int| 0 <= i < slashes.len() ==> #[trigger] slashes[i] == '/',
        forall|i: int| 0 <= i < behind.len() ==> is_white_space(#[trigger] behind[i]),
    ensures
        setting(with_var(vars, name, before + value + slashes + behind), name) == value,
        setting(with_var(vars, name, value), name) == value,
{
    let all = before + value + slashes + behind;
    variables_are_apart(vars, name, all, name, ""@);
    variables_are_apart(vars, name, value, name, ""@);
    let bare = value + slashes;
    let lo = before.len() as int;
    let hi = lo + bare.len();
    let cut = trimming_takes_white_space(all);
    assert(all[lo] == value[0]);
    assert(all[hi - 1] == if slashes.len() > 0 {
        slashes[slashes.len() - 1]
    } else {
        value.last()
    });
    assert(forall|i: int| 0 <= i < lo ==> all[i] == #[trigger] before[i]);
    assert forall|i: int| 0 <= i < lo implies is_white_space(#[trigger] all[i]) by {
        assert(all[i] == before[i]);
    }
    assert forall|i: int| hi <= i < all.len() implies is_white_space(#[trigger] all[i]) by {
        assert(all[i] == behind[i - hi]);
    }
    assert(cut.0 == lo && cut.1 == hi);
    assert(trimmed(all) =~= bare);
    trailing_characters_go(bare, '/');
    let kept = without_trailing(bare, '/');
    if kept.len() < value.len() {
        assert(bare[value.len() - 1] == '/');
    }
    if kept.len() > value.len() {
        assert(kept.last() == bare[kept.len() - 1]);
        assert(bare[kept.len() - 1] == slashes[kept.len() - 1 - value.len()]);
    }
    assert(kept =~= value);
    let own = trimming_takes_white_space(value);
    assert(own.0 == 0 && own.1 == value.len());
    assert(trimmed(value) =~= value);
}

proof fn setting_names_spelled()
    ensures
        "PLEX_URL"@.len() == 8 && "PLEX_TOKEN"@.len() == 10,
        "JELLYFIN_URL"@.len() == 12 && "JELLYFIN_API_KEY"@.len() == 16 && "JELLYFIN_USER_ID"@.len()
            == 16,
        "JELLYFIN_API_KEY"@[9] == 'A' && "JELLYFIN_USER_ID"@[9] == 'U',
        "NAVIDROME_URL"@.len() == 13 && "NAVIDROME_USER"@.len() == 14 && "NAVIDROME_PASSWORD"@.len()
            == 18,
        "plex"@.len() == 4 && "jellyfin"@.len() == 8 && "jellyfin"@[0] == 'j',
        "navidrome"@.len() == 9 && "subsonic"@.len() == 8 && "subsonic"@[0] == 's',
{
    reveal_strlit("PLEX_URL");
    reveal_strlit("PLEX_TOKEN");
    reveal_strlit("JELLYFIN_URL");
    reveal_strlit("JELLYFIN_API_KEY");
    reveal_strlit("JELLYFIN_USER_ID");
    reveal_strlit("NAVIDROME_URL");
    reveal_strlit("NAVIDROME_USER");
    reveal_strlit("NAVIDROME_PASSWORD");
    reveal_strlit("plex");
    reveal_strlit("jellyfin");
    reveal_strlit("navidrome");
    reveal_strlit("subsonic");
}

/// The setting of a variable that was set, whatever else was set around it.
proof fn setting_is_kept(
    vars: Seq<(Seq<char>, Seq<char>)>,
    name: Seq<char>,
    value: Seq<char>,
    other: Seq<char>,
)
    requires
        is_clean(value),
    ensures
        setting(with_var(vars, name, value), name) == value,
        other != name ==> setting(with_var(vars, name, value), other) == setting(vars, other),
{
    let none = Seq::<char>::empty();
    settings_are_cleaned(vars, name, none, value, none, none);
    variables_are_apart(vars, name, value, other, ""@);
}

/// A server is configured by its kind and by the variables of that kind, each of which goes where it
/// belongs. Without one of them there is no server, and of any other kind there is none.
pub proof fn servers_are_configured_by_their_variables(
    vars: Seq<(Seq<char>, Seq<char>)>,
    kind: Seq<char>,
    a: Seq<char>,
    b: Seq<char>,
    c: Seq<char>,
)
    requires
        is_clean(a),
        is_clean(b),
        is_clean(c),
    ensures
        server_of_kind(
            "plex"@,
            with_var(with_var(vars, "PLEX_URL"@, a), "PLEX_TOKEN"@, b),
        ) == Some(MediaServerV::Plex { url: a, token: b }),
        server_of_kind(
            "jellyfin"@,
            with_var(
                with_var(with_var(vars, "JELLYFIN_URL"@, a), "JELLYFIN_API_KEY"@, b),
                "JELLYFIN_USER_ID"@,
                c,
            ),
        ) == Some(MediaServerV::Jellyfin { url: a, api_key: b, user_id: c }),
        kind == "navidrome"@ || kind == "subsonic"@ ==> server_of_kind(
            kind,
            with_var(
                with_var(with_var(vars, "NAVIDROME_URL"@, a), "NAVIDROME_USER"@, b),
                "NAVIDROME_PASSWORD"@,
                c,
            ),
        ) == Some(MediaServerV::Navidrome { url: a, user: b, password: c }),
        kind != "plex"@ && kind != "jellyfin"@ && kind != "navidrome"@ && kind != "subsonic"@
            ==> server_of_kind(kind, vars) is None,
{
    setting_names_spelled();
    setting_is_kept(vars, "PLEX_URL"@, a, "PLEX_URL"@);
    setting_is_kept(with_var(vars, "PLEX_URL"@, a), "PLEX_TOKEN"@, b, "PLEX_URL"@);
    let j1 = with_var(vars, "JELLYFIN_URL"@, a);
    let j2 = with_var(j1, "JELLYFIN_API_KEY"@, b);
    setting_is_kept(vars, "JELLYFIN_URL"@, a, "JELLYFIN_URL"@);
    setting_is_kept(j1, "JELLYFIN_API_KEY"@, b, "JELLYFIN_URL"@);
    setting_is_kept(j2, "JELLYFIN_USER_ID"@, c, "JELLYFIN_URL"@);
    setting_is_kept(j2, "JELLYFIN_USER_ID"@, c, "JELLYFIN_API_KEY"@);
    let n1 = with_var(vars, "NAVIDROME_URL"@, a);
    let n2 = with_var(n1, "NAVIDROME_USER"@, b);
    setting_is_kept(vars, "NAVIDROME_URL"@, a, "NAVIDROME_URL"@);
    setting_is_kept(n1, "NAVIDROME_USER"@, b, "NAVIDROME_URL"@);
    setting_is_kept(n2, "NAVIDROME_PASSWORD"@, c, "NAVIDROME_URL"@);
    setting_is_kept(n2, "NAVIDROME_PASSWORD"@, c, "NAVIDROME_USER"@);
}

/// The kind of the server is what `MEDIA_SERVER` says, whatever its case and the white space around
/// it.
pub proof fn kinds_are_read_without_case(vars: Seq<(Seq<char>, Seq<char>)>, value: Seq<char>)
    ensures
        server_in(with_var(vars, "MEDIA_SERVER"@, value)) == server_of_kind(
            lowercase(trimmed(value)),
            with_var(vars, "MEDIA_SERVER"@, value),
        ),
        lowercase(trimmed(value)) == "plex"@ ==> server_in(with_var(vars, "MEDIA_SERVER"@, value)) is None
            || server_in(with_var(vars, "MEDIA_SERVER"@, value))->0 is Plex,
{
    variables_are_apart(vars, "MEDIA_SERVER"@, value, "MEDIA_SERVER"@, ""@);
}

/// Each server goes by its own name.
pub proof fn servers_go_by_their_names(a: Seq<char>, b: Seq<char>, c: Seq<char>)
    ensures
        label_of(MediaServerV::Plex { url: a, token: b }) == "Plex"@,
        label_of(MediaServerV::Jellyfin { url: a, api_key: b, user_id: c }) == "Jellyfin"@,
        label_of(MediaServerV::Navidrome { url: a, user: b, password: c }) == "Navidrome"@,
{
}

// ---- Laws of calls -------------------------------------------------------------------------

/// A request goes to the address of the server with the method, the parameters and the body of the
/// call, and with what lets the bot in: a token for Plex, a key for Jellyfin, and for a Subsonic
/// server the user and the digest of the password and the salt. The salt is the time of the call.
pub proof fn requests_let_the_bot_in(
    server: MediaServerV,
    call: CallV,
    nanos: nat,
    i: int,
)
    ensures
        ({
            let q = signed_call(server, call, nanos);
            let more = q.query.len() - call.query.len();
            &&& q.method == call.method && q.body == call.body
            &&& more >= 0
            &&& 0 <= i < call.query.len() ==> q.query[more + i] == call.query[i]
            &&& server matches MediaServer::Plex { url, token } ==> {
                &&& q.url == url + call.path
                &&& q.query.contains(("X-Plex-Token"@, token)) && more == 1
                &&& call.json ==> q.headers.contains(("Accept"@, "application/json"@))
            }
            &&& server matches MediaServer::Jellyfin { url, api_key, .. } ==> {
                &&& q.url == url + call.path
                &&& q.headers.contains(("X-Emby-Token"@, api_key)) && more == 0
            }
            &&& server matches MediaServer::Navidrome { url, user, password } ==> {
                &&& q.url == url + call.path
                &&& q.query.contains(("u"@, user)) && q.query.contains(("f"@, "json"@))
                &&& q.query.contains(("v"@, "1.16.1"@)) && q.query.contains(("c"@, "teleemix"@))
                &&& exists|salt: Seq<char>|
                    numeral_value(salt, 16) == nanos && #[trigger] q.query.contains(("s"@, salt))
                        && q.query.contains(("t"@, md5_hex(password + salt)))
            }
        }),
{
    let q = signed_call(server, call, nanos);
    match server {
        MediaServer::Plex { url, token } => {
            assert(q.query[0] == ("X-Plex-Token"@, token));
            if call.json {
                assert(q.headers[0] == ("Accept"@, "application/json"@));
            }
        },
        MediaServer::Jellyfin { url, api_key, user_id } => {
            assert(q.headers[0] == ("X-Emby-Token"@, api_key));
        },
        MediaServer::Navidrome { url, user, password } => {
            let salt = numeral(nanos, 16);
            numerals_read_back(nanos, 16);
            assert(q.query[0] == ("u"@, user));
            assert(q.query[1] == ("t"@, md5_hex(password + salt)));
            assert(q.query[2] == ("s"@, salt));
            assert(q.query[3] == ("v"@, "1.16.1"@));
            assert(q.query[4] == ("c"@, "teleemix"@));
            assert(q.query[5] == ("f"@, "json"@));
            assert(q.query.contains(("s"@, salt)));
            assert(q.query.contains(("t"@, md5_hex(password + salt))));
        },
    }
}

/// An answer of Plex counts where its status is one of success, an answer of a Subsonic server where
/// its own status is `ok`, and every document of Jellyfin counts. What is no document is no answer.
pub proof fn answers_count_by_their_status(server: MediaServerV, reply: ReplyV, data: JsonV)
    ensures
        answer(server, reply) == Some(data) ==> document_of(reply) == Ok::<JsonV, Seq<char>>(data),
        document_of(reply) == Ok::<JsonV, Seq<char>>(data) ==> {
            &&& server is Jellyfin ==> answer(server, reply) == Some(data)
            &&& server is Plex ==> (answer(server, reply) is Some <==> went_well(reply))
            &&& server is Navidrome ==> (answer(server, reply) is Some <==> data.at(
                "subsonic-response"@,
            ).at("status"@) == JsonV::Text("ok"@))
        },
{
}

/// A Plex server is known by the identifier that it gives of itself.
pub proof fn plex_servers_are_identified(data: JsonV, machine: Seq<char>)
    ensures
        data.at("MediaContainer"@).at("machineIdentifier"@) == JsonV::Text(machine) ==> identifier(
            data,
        ) == Ok::<Seq<char>, Seq<char>>(machine),
        data.at("MediaContainer"@).at("machineIdentifier"@) !is Text ==> identifier(data) is Err,
        identity_call().method == Method::Get && identity_call().path == "/identity"@,
        sections_call().method == Method::Get && sections_call().path == "/library/sections"@,
        identity_call().json && sections_call().json,
{
}

/// The music section of a Plex server is the first that holds artists.
pub proof fn music_is_in_the_first_section_of_artists(
    data: JsonV,
    sections: Seq<JsonV>,
    i: int,
    key: Seq<char>,
)
    requires
        data.at("MediaContainer"@).at("Directory"@) == JsonV::Array(sections),
        0 <= i <= sections.len(),
        i < sections.len() ==> sections[i].at("type"@) == JsonV::Text("artist"@),
        forall|j: int|
            0 <= j < i ==> (#[trigger] sections[j]).at("type"@) != JsonV::Text("artist"@),
    ensures
        i < sections.len() && sections[i].at("key"@) == JsonV::Text(key) ==> music_section(data)
            == Ok::<Seq<char>, Seq<char>>(key),
        i < sections.len() && sections[i].at("key"@) !is Text ==> music_section(data) is Err,
        i == sections.len() ==> music_section(data) is Err,
{
    first_section_is_first(sections, i);
}

proof fn first_section_is_first(sections: Seq<JsonV>, i: int)
    requires
        0 <= i <= sections.len(),
        i < sections.len() ==> sections[i].at("type"@) == JsonV::Text("artist"@),
        forall|j: int|
            0 <= j < i ==> (#[trigger] sections[j]).at("type"@) != JsonV::Text("artist"@),
    ensures
        first_music_section(sections) == if i < sections.len() {
            Some(sections[i])
        } else {
            None
        },
    decreases sections.len(),
{
    if sections.len() > 0 {
        let fewer = sections.drop_last();
        let k = if i < fewer.len() {
            i
        } else {
            fewer.len() as int
        };
        assert forall|j: int| 0 <= j < k implies (#[trigger] fewer[j]).at("type"@) != JsonV::Text(
            "artist"@,
        ) by {
            assert(fewer[j] == sections[j]);
        }
        first_section_is_first(fewer, k);
        assert(sections[sections.len() - 1] == sections.last());
    }
}

/// A scan is started on the music section of Plex and on all of the others' libraries. Plex tells by
/// that very section whether the scan goes on, a Subsonic server by its own status; Jellyfin is not
/// asked.
pub proof fn scans_are_asked_for(session: ServerSessionV, data: JsonV, sections: Seq<JsonV>)
    ensures
        session.server is Plex ==> {
            &&& scan_call(session).path == "/library/sections/"@ + session.section + "/refresh"@
            &&& scan_status_call(session) matches Some(call) && call.path == "/library/sections"@
            &&& data.at("MediaContainer"@).at("Directory"@) == JsonV::Array(sections) ==> (
            reports_scan(session, data) <==> exists|i: int|
                0 <= i < sections.len() && (#[trigger] sections[i]).at("key"@) == JsonV::Text(
                    session.section,
                ) && sections[i].at("refreshing"@) == JsonV::Bool(true))
        },
        session.server is Jellyfin ==> {
            &&& scan_call(session).path == "/Library/Refresh"@
            &&& scan_call(session).method == Method::Post
            &&& scan_status_call(session) is None
            &&& !reports_scan(session, data)
        },
        session.server is Navidrome ==> {
            &&& scan_call(session).path == "/rest/startScan"@
            &&& scan_status_call(session) matches Some(call) && call.path == "/rest/getScanStatus"@
            &&& reports_scan(session, data) <==> data.at("subsonic-response"@).at("scanStatus"@).at(
                "scanning"@,
            ) == JsonV::Bool(true)
        },
{
}

// ---- Laws of finding a track ---------------------------------------------------------------

/// A track is searched for by its title: in the music section of Plex, among the songs of the user
/// of Jellyfin, and on a Subsonic server together with its artist, where there is one.
pub proof fn tracks_are_searched_for_by_title(
    session: ServerSessionV,
    title: Seq<char>,
    artist: Seq<char>,
)
    ensures
        ({
            let call = find_call(session, title, artist);
            &&& call.method == Method::Get && call.json && call.body is Empty
            &&& session.server is Plex ==> {
                &&& call.path == "/library/sections/"@ + session.section + "/all"@
                &&& call.query.contains(("title"@, title)) && call.query.contains(("type"@, "10"@))
                &&& call.query.len() == 2
            }
            &&& session.server matches MediaServer::Jellyfin { user_id, .. } ==> {
                &&& call.path == "/Items"@
                &&& call.query.contains(("SearchTerm"@, title))
                &&& call.query.contains(("IncludeItemTypes"@, "Audio"@))
                &&& call.query.contains(("Recursive"@, "true"@))
                &&& call.query.contains(("Limit"@, "10"@))
                &&& call.query.contains(("UserId"@, user_id))
                &&& call.query.len() == 5
            }
            &&& session.server is Navidrome ==> {
                &&& call.path == "/rest/search3"@
                &&& artist.len() == 0 ==> call.query.contains(("query"@, title))
                &&& artist.len() > 0 ==> call.query.contains(("query"@, title + " "@ + artist))
                &&& call.query.contains(("songCount"@, "10"@))
                &&& call.query.contains(("artistCount"@, "0"@))
                &&& call.query.contains(("albumCount"@, "0"@))
                &&& call.query.len() == 4
            }
        }),
{
    let q = find_call(session, title, artist).query;
    match session.server {
        MediaServer::Plex { .. } => {
            assert(q[0] == ("type"@, "10"@) && q[1] == ("title"@, title));
        },
        MediaServer::Jellyfin { user_id, .. } => {
            assert(q[0] == ("IncludeItemTypes"@, "Audio"@) && q[1] == ("Recursive"@, "true"@));
            assert(q[2] == ("SearchTerm"@, title) && q[3] == ("Limit"@, "10"@));
            assert(q[4] == ("UserId"@, user_id));
        },
        MediaServer::Navidrome { .. } => {
            assert(q[1] == ("songCount"@, "10"@) && q[2] == ("artistCount"@, "0"@));
            assert(q[3] == ("albumCount"@, "0"@));
            assert(q[0].0 == "query"@);
            assert(q.contains(q[0]));
        },
    }
}

/// Only a Subsonic server that found nothing by title and artist is asked once more, and then by the
/// title alone.
pub proof fn titles_alone_are_searched_for_once(
    session: ServerSessionV,
    title: Seq<char>,
    artist: Seq<char>,
    again: bool,
    data: JsonV,
    songs: Seq<JsonV>,
)
    ensures
        session.server !is Navidrome || artist.len() == 0 || again ==> finding(
            session,
            title,
            artist,
            again,
            data,
        ) is Settled,
        session.server is Navidrome && data.at("subsonic-response"@).at("searchResult3"@).at("song"@)
            == JsonV::Array(songs) && songs.len() > 0 ==> finding(
            session,
            title,
            artist,
            again,
            data,
        ) is Settled,
        session.server is Navidrome && artist.len() > 0 && !again && data.at(
            "subsonic-response"@,
        ).at("searchResult3"@).at("song"@) !is Array ==> {
            &&& finding(session, title, artist, again, data) matches FindingV::SearchAgain(call)
            &&& call.path == "/rest/search3"@
            &&& call.query.contains(("query"@, title))
        },
{
    let call = subsonic_search(title);
    assert(call.query[0] == ("query"@, title));
}

/// A text that an item has under a key; empty where it has none there.
pub open spec fn has_text(item: JsonV, key: Seq<char>, s: Seq<char>) -> bool {
    item.at(key) == JsonV::Text(s) || (item.at(key) !is Text && s.len() == 0)
}

/// A list of texts that an item has under a key; empty where it has none there.
pub open spec fn has_texts(item: JsonV, key: Seq<char>, list: Seq<Seq<char>>) -> bool {
    match item.at(key) {
        JsonV::Array(items) => items.len() == list.len() && forall|i: int|
            0 <= i < list.len() ==> #[trigger] items[i] == JsonV::Text(list[i]),
        _ => list.len() == 0,
    }
}

/// Whatever the case, the credit names the artist, or the artist asked for names the credit.
pub open spec fn is_credited_to(have: Seq<char>, artist: Seq<char>) -> bool {
    let (h, w) = (lowercase(have), lowercase(artist));
    contains(h, w) || (trimmed(h).len() > 0 && contains(w, trimmed(h)))
}

/// The first of the credits that names the artist is at this place.
pub open spec fn first_credit_is_at(haves: Seq<Seq<char>>, artist: Seq<char>, i: int) -> bool {
    &&& 0 <= i < haves.len()
    &&& is_credited_to(haves[i], artist)
    &&& forall|j: int| 0 <= j < i ==> !is_credited_to(#[trigger] haves[j], artist)
}

/// An item that is credited to the artist by name is credited to the artist, whatever the case.
pub proof fn names_are_compared_without_case(have: Seq<char>, artist: Seq<char>)
    ensures
        lowercase(have) == lowercase(artist) ==> is_credited_to(have, artist),
{
    texts_contain_themselves(lowercase(artist));
}

proof fn picks_by_credit(
    server: MediaServerV,
    items: Seq<JsonV>,
    artist: Seq<char>,
    haves: Seq<Seq<char>>,
)
    requires
        items.len() > 0,
        items.len() == haves.len(),
        forall|i: int| 0 <= i < items.len() ==> credit(server, #[trigger] items[i]) == haves[i],
    ensures
        artist.len() > 0 && (exists|k: int|
            0 <= k < haves.len() && is_credited_to(#[trigger] haves[k], artist)) ==> exists|i: int| #[trigger]
            first_credit_is_at(haves, artist, i) && picked_id(server, items, artist) == id_of(
                server,
                items[i],
            ),
        artist.len() == 0 || (forall|k: int|
            0 <= k < haves.len() ==> !is_credited_to(#[trigger] haves[k], artist)) ==> picked_id(
            server,
            items,
            artist,
        ) == id_of(server, items[0]),
{
    let list = credits(server, items);
    assert(list =~= haves);
    matching_artist_is_preferred(list, artist);
    let i = picked(list, artist)->0;
    if artist.len() > 0 && (exists|k: int|
        0 <= k < haves.len() && is_credited_to(#[trigger] haves[k], artist)) {
        let k = choose|k: int| 0 <= k < haves.len() && is_credited_to(#[trigger] haves[k], artist);
        assert(credit_matches(list[k], artist));
        assert forall|j: int| 0 <= j < i implies !is_credited_to(#[trigger] haves[j], artist) by {
            assert(!credit_matches(list[j], artist));
        }
        assert(first_credit_is_at(haves, artist, i));
    }
    if artist.len() > 0 && (forall|k: int|
        0 <= k < haves.len() ==> !is_credited_to(#[trigger] haves[k], artist)) {
        assert forall|k: int| 0 <= k < list.len() implies !credit_matches(
            #[trigger] list[k],
            artist,
        ) by {
            assert(!is_credited_to(haves[k], artist));
        }
    }
}

/// Of the songs that a Subsonic server lists, the first whose `artist` names the artist asked for is
/// settled on, by its `id`; the first of all where none does or no artist is asked for.
pub proof fn subsonic_songs_are_picked_by_artist(
    session: ServerSessionV,
    title: Seq<char>,
    artist: Seq<char>,
    again: bool,
    data: JsonV,
    items: Seq<JsonV>,
    artists: Seq<Seq<char>>,
)
    requires
        session.server is Navidrome,
        data.at("subsonic-response"@).at("searchResult3"@).at("song"@) == JsonV::Array(items),
        items.len() > 0,
        items.len() == artists.len(),
        forall|i: int|
            0 <= i < items.len() ==> has_text(#[trigger] items[i], "artist"@, artists[i]),
    ensures
        artist.len() > 0 && (exists|k: int|
            0 <= k < artists.len() && is_credited_to(#[trigger] artists[k], artist)) ==> exists|
            i: int,
        | #[trigger]
            first_credit_is_at(artists, artist, i) && finding(session, title, artist, again, data)
                == FindingV::Settled(items[i].at("id"@).text()),
        artist.len() == 0 || (forall|k: int|
            0 <= k < artists.len() ==> !is_credited_to(#[trigger] artists[k], artist)) ==> finding(
            session,
            title,
            artist,
            again,
            data,
        ) == FindingV::Settled(items[0].at("id"@).text()),
{
    reveal_strlit("");
    assert forall|i: int| 0 <= i < items.len() implies credit(session.server, #[trigger] items[i])
        == artists[i] by {
        assert(has_text(items[i], "artist"@, artists[i]));
        assert(credit(session.server, items[i]) =~= artists[i]);
    }
    picks_by_credit(session.server, items, artist, artists);
}

/// Of the tracks that Plex lists, the first whose album artist (`grandparentTitle`) or own artist
/// (`originalTitle`) names the artist asked for is settled on, by its key; the first of all where
/// none does or no artist is asked for.
pub proof fn plex_tracks_are_picked_by_artist(
    session: ServerSessionV,
    title: Seq<char>,
    artist: Seq<char>,
    again: bool,
    data: JsonV,
    items: Seq<JsonV>,
    albums: Seq<Seq<char>>,
    owns: Seq<Seq<char>>,
    haves: Seq<Seq<char>>,
)
    requires
        session.server is Plex,
        data.at("MediaContainer"@).at("Metadata"@) == JsonV::Array(items),
        items.len() > 0,
        items.len() == albums.len() == owns.len() == haves.len(),
        forall|i: int|
            0 <= i < items.len() ==> has_text(#[trigger] items[i], "grandparentTitle"@, albums[i])
                && has_text(items[i], "originalTitle"@, owns[i]) && haves[i] == albums[i] + " "@
                + owns[i],
    ensures
        artist.len() > 0 && (exists|k: int|
            0 <= k < haves.len() && is_credited_to(#[trigger] haves[k], artist)) ==> exists|i: int| #[trigger]
            first_credit_is_at(haves, artist, i) && finding(session, title, artist, again, data)
                == FindingV::Settled(rating_key(items[i])),
        artist.len() == 0 || (forall|k: int|
            0 <= k < haves.len() ==> !is_credited_to(#[trigger] haves[k], artist)) ==> finding(
            session,
            title,
            artist,
            again,
            data,
        ) == FindingV::Settled(rating_key(items[0])),
{
    reveal_strlit("");
    assert forall|i: int| 0 <= i < items.len() implies credit(session.server, #[trigger] items[i])
        == haves[i] by {
        let item = items[i];
        assert(has_text(item, "grandparentTitle"@, albums[i]));
        assert(item.at("grandparentTitle"@).text_or(""@) =~= albums[i]);
        assert(item.at("originalTitle"@).text_or(""@) =~= owns[i]);
    }
    picks_by_credit(session.server, items, artist, haves);
}

/// Of the songs that Jellyfin lists, the first whose `Artists` or `AlbumArtist` name the artist asked
/// for is settled on, by its `Id`; the first of all where none does or no artist is asked for.
pub proof fn jellyfin_songs_are_picked_by_artist(
    session: ServerSessionV,
    title: Seq<char>,
    artist: Seq<char>,
    again: bool,
    data: JsonV,
    items: Seq<JsonV>,
    artists: Seq<Seq<Seq<char>>>,
    albums: Seq<Seq<char>>,
    haves: Seq<Seq<char>>,
)
    requires
        session.server is Jellyfin,
        data.at("Items"@) == JsonV::Array(items),
        items.len() > 0,
        items.len() == artists.len() == albums.len() == haves.len(),
        forall|i: int|
            0 <= i < items.len() ==> has_texts(#[trigger] items[i], "Artists"@, artists[i])
                && has_text(items[i], "AlbumArtist"@, albums[i]) && haves[i] == joined(
                artists[i],
                " "@,
            ) + " "@ + albums[i],
    ensures
        artist.len() > 0 && (exists|k: int|
            0 <= k < haves.len() && is_credited_to(#[trigger] haves[k], artist)) ==> exists|i: int| #[trigger]
            first_credit_is_at(haves, artist, i) && finding(session, title, artist, again, data)
                == FindingV::Settled(items[i].at("Id"@).text()),
        artist.len() == 0 || (forall|k: int|
            0 <= k < haves.len() ==> !is_credited_to(#[trigger] haves[k], artist)) ==> finding(
            session,
            title,
            artist,
            again,
            data,
        ) == FindingV::Settled(items[0].at("Id"@).text()),
{
    reveal_strlit("");
    assert forall|i: int| 0 <= i < items.len() implies credit(session.server, #[trigger] items[i])
        == haves[i] by {
        let item = items[i];
        assert(has_texts(item, "Artists"@, artists[i]));
        assert(item.at("AlbumArtist"@).text_or(""@) =~= albums[i]);
        if let JsonV::Array(list) = item.at("Artists"@) {
            texts_are_collected(list, artists[i]);
        } else {
            assert(joined(artists[i], " "@) =~= Seq::empty());
        }
    }
    picks_by_credit(session.server, items, artist, haves);
}

proof fn texts_are_collected(items: Seq<JsonV>, list: Seq<Seq<char>>)
    requires
        items.len() == list.len(),
        forall|i: int| 0 <= i < list.len() ==> #[trigger] items[i] == JsonV::Text(list[i]),
    ensures
        strings(items) == list,
    decreases items.len(),
{
    if items.len() > 0 {
        let (fewer, rest) = (items.drop_last(), list.drop_last());
        assert forall|i: int| 0 <= i < rest.len() implies #[trigger] fewer[i] == JsonV::Text(
            rest[i],
        ) by {
            assert(items[i] == JsonV::Text(list[i]));
        }
        texts_are_collected(fewer, rest);
        assert(items[items.len() - 1] == items.last());
        assert(strings(items) =~= list);
    } else {
        assert(strings(items) =~= list);
    }
}

/// What a list holds besides texts is passed over; the texts keep their order.
pub proof fn only_texts_are_collected(items: Seq<JsonV>)
    ensures
        strings(items) == items.filter(|v: JsonV| v is Text).map_values(|v: JsonV| v->Text_0),
    decreases items.len(),
{
    reveal(Seq::filter);
    if items.len() > 0 {
        only_texts_are_collected(items.drop_last());
    }
    assert(strings(items) =~= items.filter(|v: JsonV| v is Text).map_values(
        |v: JsonV| v->Text_0,
    ));
}

/// The key of an item of Plex is what stands under `ratingKey`, a text or a number.
pub proof fn plex_keys_are_texts_or_numbers(item: JsonV, key: Seq<char>, n: u64)
    ensures
        item.at("ratingKey"@) == JsonV::Text(key) ==> rating_key(item) == Some(key),
        item.at("ratingKey"@) matches JsonV::Number { unsigned: Some(m), .. } && m == n
            ==> rating_key(item) == Some(decimal(n as nat)),
        item.at("ratingKey"@) !is Text && item.at("ratingKey"@) !is Number ==> rating_key(item) is None,
{
}

/// A library that lists nothing has no track.
pub proof fn nothing_listed_nothing_found(
    session: ServerSessionV,
    title: Seq<char>,
    artist: Seq<char>,
    data: JsonV,
)
    ensures
        data == JsonV::Null ==> finding(session, title, artist, true, data) == FindingV::Settled(
            None,
        ),
        data.at("Items"@) == JsonV::Array(Seq::empty()) && session.server is Jellyfin ==> finding(
            session,
            title,
            artist,
            true,
            data,
        ) == FindingV::Settled(None),
{
}

// ---- Laws of rebuilding a playlist ---------------------------------------------------------

/// The playlists are listed before one is deleted: all that hold audio on Plex, those of the user
/// that the name may find on Jellyfin, and all of them on a Subsonic server.
pub proof fn playlists_are_listed_first(session: ServerSessionV, name: Seq<char>)
    ensures
        ({
            let call = list_call(session, name);
            &&& call.method == Method::Get && call.json && call.body is Empty
            &&& session.server is Plex ==> {
                &&& call.path == "/playlists"@
                &&& call.query == seq![("playlistType"@, "audio"@)]
            }
            &&& session.server matches MediaServer::Jellyfin { user_id, .. } ==> {
                &&& call.path == "/Items"@
                &&& call.query.contains(("IncludeItemTypes"@, "Playlist"@))
                &&& call.query.contains(("Recursive"@, "true"@))
                &&& call.query.contains(("SearchTerm"@, name))
                &&& call.query.contains(("UserId"@, user_id))
            }
            &&& session.server is Navidrome ==> {
                &&& call.path == "/rest/getPlaylists"@
                &&& call.query.len() == 0
            }
        }),
{
    let q = list_call(session, name).query;
    if let MediaServer::Jellyfin { user_id, .. } = session.server {
        assert(q[0] == ("IncludeItemTypes"@, "Playlist"@) && q[1] == ("Recursive"@, "true"@));
        assert(q[2] == ("SearchTerm"@, name) && q[3] == ("UserId"@, user_id));
    }
}

/// The playlists that a server lists, where each server lists them.
pub open spec fn lists_playlists(server: MediaServerV, data: JsonV, items: Seq<JsonV>) -> bool {
    match server {
        MediaServer::Plex { .. } => data.at("MediaContainer"@).at("Metadata"@) == JsonV::Array(items),
        MediaServer::Jellyfin { .. } => data.at("Items"@) == JsonV::Array(items),
        MediaServer::Navidrome { .. } => data.at("subsonic-response"@).at("playlists"@).at(
            "playlist"@,
        ) == JsonV::Array(items),
    }
}

/// The playlist bears the name, where each server has it, but for the case of ASCII letters.
pub open spec fn bears_name(server: MediaServerV, item: JsonV, own: Seq<char>, name: Seq<char>) -> bool {
    &&& same_but_case(own, name)
    &&& match server {
        MediaServer::Plex { .. } => item.at("title"@) == JsonV::Text(own),
        MediaServer::Jellyfin { .. } => item.at("Name"@) == JsonV::Text(own),
        MediaServer::Navidrome { .. } => item.at("name"@) == JsonV::Text(own),
    }
}

/// The call deletes the playlist with this identifier.
pub open spec fn deletes(server: MediaServerV, call: CallV, id: Seq<char>) -> bool {
    match server {
        MediaServer::Plex { .. } => call.method == Method::Delete && call.path == "/playlists/"@ + id
            && call.query.len() == 0,
        MediaServer::Jellyfin { .. } => call.method == Method::Delete && call.path == "/Items/"@ + id
            && call.query.len() == 0,
        MediaServer::Navidrome { .. } => call.method == Method::Get && call.path
            == "/rest/deletePlaylist"@ && call.query == seq![("id"@, id)],
    }
}

/// The identifier of a playlist, where each server has it.
pub open spec fn identifies(server: MediaServerV, item: JsonV, id: Seq<char>) -> bool {
    match server {
        MediaServer::Plex { .. } => item.at("ratingKey"@) == JsonV::Text(id) || (exists|n: u64|
            id == decimal(n as nat) && item.at("ratingKey"@).unsigned() == Some(n)
                && #[trigger] is_number(item.at("ratingKey"@), n)),
        MediaServer::Jellyfin { .. } => item.at("Id"@) == JsonV::Text(id),
        MediaServer::Navidrome { .. } => item.at("id"@) == JsonV::Text(id),
    }
}

/// The value is this number.
pub open spec fn is_number(v: JsonV, n: u64) -> bool {
    v matches JsonV::Number { unsigned: Some(m), .. } && m == n
}

/// Every old playlist of the name is deleted before the new one is created, and no other playlist
/// is: a playlist that is listed under the name is deleted by its own identifier, and every call but
/// the last deletes such a playlist.
pub proof fn old_playlists_make_way(
    session: ServerSessionV,
    name: Seq<char>,
    ids: Seq<Seq<char>>,
    data: JsonV,
    items: Seq<JsonV>,
    i: int,
    own: Seq<char>,
    id: Seq<char>,
    k: int,
)
    requires
        lists_playlists(session.server, data, items),
    ensures
        ({
            let calls = rebuild_calls(session, name, ids, data);
            &&& calls.len() > 0
            &&& calls.last() == create_call(session, name, ids)
            &&& 0 <= i < items.len() && bears_name(session.server, items[i], own, name) && identifies(
                session.server,
                items[i],
                id,
            ) ==> exists|j: int|
                0 <= j < calls.len() - 1 && deletes(session.server, #[trigger] calls[j], id)
            &&& 0 <= k < calls.len() - 1 ==> exists|j: int, o: Seq<char>, d: Seq<char>|
                0 <= j < items.len() && #[trigger] bears_name(session.server, items[j], o, name)
                    && #[trigger] identifies(session.server, items[j], d) && deletes(
                    session.server,
                    calls[k],
                    d,
                )
        }),
{
    let server = session.server;
    let calls = rebuild_calls(session, name, ids, data);
    let gone = deletions(server, items, name);
    assert(playlists_in(server, data) == items);
    assert(calls == gone.push(create_call(session, name, ids)));
    deletions_are_the_named(server, items, name);
    if 0 <= i < items.len() && bears_name(server, items[i], own, name) && identifies(
        server,
        items[i],
        id,
    ) {
        assert(id_of(server, items[i]) == Some(id));
        let c = delete_call(server, id);
        assert(is_named(server, items[i], name));
        assert(gone.contains(c));
        let j = choose|j: int| 0 <= j < gone.len() && gone[j] == c;
        assert(deletes(server, calls[j], id));
    }
    if 0 <= k < calls.len() - 1 {
        assert(gone.contains(gone[k]));
        let j = choose|j: int|
            0 <= j < items.len() && is_named(server, #[trigger] items[j], name) && id_of(
                server,
                items[j],
            ) is Some && gone[k] == delete_call(server, id_of(server, items[j])->0);
        let o = playlist_name(server, items[j])->0;
        let d = id_of(server, items[j])->0;
        assert(bears_name(server, items[j], o, name));
        if server is Plex && items[j].at("ratingKey"@) !is Text {
            let n = items[j].at("ratingKey"@).unsigned()->0;
            assert(is_number(items[j].at("ratingKey"@), n));
        }
        assert(identifies(server, items[j], d));
        assert(deletes(server, calls[k], d));
    }
}

/// The call that creates a playlist gives its name and names exactly the given items, all of them
/// and in their order: the parameters `songId` on a Subsonic server, the list `Ids` on Jellyfin, and
/// the end of `uri` with commas between them on Plex, where no identifier holds a comma.
pub proof fn playlists_are_created_of_the_given_items(
    session: ServerSessionV,
    name: Seq<char>,
    ids: Seq<Seq<char>>,
)
    ensures
        ({
            let call = create_call(session, name, ids);
            &&& session.server is Navidrome ==> {
                &&& call.method == Method::Get && call.path == "/rest/createPlaylist"@ && call.json
                &&& call.query.len() == ids.len() + 1
                &&& call.query[0] == ("name"@, name)
                &&& forall|i: int|
                    0 <= i < ids.len() ==> call.query[i + 1] == ("songId"@, #[trigger] ids[i])
            }
            &&& session.server matches MediaServer::Jellyfin { user_id, .. } ==> {
                &&& call.method == Method::Post && call.path == "/Playlists"@
                &&& call.body matches BodyV::Json(sent)
                &&& sent.at("Name"@).text() == Some(name)
                &&& sent.at("UserId"@).text() == Some(user_id)
                &&& sent.at("MediaType"@).text() == Some("Audio"@)
                &&& sent.at("Ids"@) matches JsonV::Array(items)
                &&& items.len() == ids.len()
                &&& forall|i: int|
                    0 <= i < ids.len() ==> items[i] == JsonV::Text(#[trigger] ids[i])
            }
            &&& session.server is Plex ==> {
                let before = "server://"@ + session.machine
                    + "/com.plexapp.plugins.library/library/metadata/"@;
                &&& call.method == Method::Post && call.path == "/playlists"@
                &&& call.query.contains(("type"@, "audio"@)) && call.query.contains(("title"@, name))
                &&& call.query.contains(("smart"@, "0"@))
                &&& exists|uri: Seq<char>|
                    {
                        &&& #[trigger] call.query.contains(("uri"@, uri))
                        &&& uri.len() >= before.len()
                        &&& uri.take(before.len() as int) == before
                        &&& ids.len() > 0 && (forall|i: int|
                            0 <= i < ids.len() ==> !(#[trigger] ids[i]).contains(',')) ==> parts(
                            uri.skip(before.len() as int),
                            ',',
                        ) == ids
                    }
            }
        }),
{
    let call = create_call(session, name, ids);
    match session.server {
        MediaServer::Navidrome { .. } => {
            assert forall|i: int| 0 <= i < ids.len() implies call.query[i + 1] == (
                "songId"@,
                #[trigger] ids[i],
            ) by {
                assert(song_params(ids)[i] == ("songId"@, ids[i]));
            }
        },
        MediaServer::Jellyfin { user_id, .. } => {
            let entries = seq![
                ("Name"@, JsonV::Text(name)),
                ("Ids"@, JsonV::Array(id_values(ids))),
                ("UserId"@, JsonV::Text(user_id)),
                ("MediaType"@, JsonV::Text("Audio"@)),
            ];
            reveal_strlit("Name");
            reveal_strlit("Ids");
            reveal_strlit("UserId");
            reveal_strlit("MediaType");
            assert("Name"@.len() == 4 && "Ids"@.len() == 3 && "UserId"@.len() == 6);
            assert("MediaType"@.len() == 9);
            members_are_read_by_key(entries, "Name"@, 0);
            members_are_read_by_key(entries, "Ids"@, 1);
            members_are_read_by_key(entries, "UserId"@, 2);
            members_are_read_by_key(entries, "MediaType"@, 3);
            assert forall|i: int| 0 <= i < ids.len() implies id_values(ids)[i] == JsonV::Text(
                #[trigger] ids[i],
            ) by {
            }
        },
        MediaServer::Plex { .. } => {
            let before = "server://"@ + session.machine
                + "/com.plexapp.plugins.library/library/metadata/"@;
            let uri = before + joined(ids, ","@);
            assert(call.query[0] == ("type"@, "audio"@) && call.query[1] == ("title"@, name));
            assert(call.query[2] == ("smart"@, "0"@) && call.query[3] == ("uri"@, uri));
            assert(call.query.contains(("uri"@, uri)));
            assert(uri.take(before.len() as int) =~= before);
            assert(uri.skip(before.len() as int) =~= joined(ids, ","@));
            reveal_strlit(",");
            assert(","@ =~= seq![',']);
            if ids.len() > 0 && (forall|i: int|
                0 <= i < ids.len() ==> !(#[trigger] ids[i]).contains(',')) {
                joined_texts_part(ids, ',');
            }
        },
    }
}

/// A playlist was created where Plex or Jellyfin answers with a status of success, and where a
/// Subsonic server reports that all went well.
pub proof fn creations_succeed_by_the_reply(server: MediaServerV, reply: ReplyV, data: JsonV)
    ensures
        server is Plex || server is Jellyfin ==> (creation_outcome(server, reply) is Ok
            <==> went_well(reply)),
        server is Navidrome && document_of(reply) == Ok::<JsonV, Seq<char>>(data) ==> (
        creation_outcome(server, reply) is Ok <==> data.at("subsonic-response"@).at("status"@)
            == JsonV::Text("ok"@)),
        server is Navidrome && document_of(reply) is Err ==> creation_outcome(server, reply) is Err,
        server is Jellyfin ==> (reply matches Reply::Unreachable(e) ==> creation_outcome(
            server,
            reply,
        ) == Err::<(), Seq<char>>(e)),
{
}

/// Every reply is read by the answer in it: what the answer means is what the reply means, and a
/// reply that is no answer finds nothing, shows no scan and lists no playlist.
pub proof fn replies_are_read_by_their_answer(
    session: ServerSessionV,
    title: Seq<char>,
    artist: Seq<char>,
    again: bool,
    reply: ReplyV,
    data: JsonV,
)
    ensures
        answer(session.server, reply) == Some(data) ==> {
            &&& find_outcome(session, title, artist, again, reply) == finding(
                session,
                title,
                artist,
                again,
                data,
            )
            &&& scanning(session, reply) == reports_scan(session, data)
            &&& answer_or_null(session.server, reply) == data
            &&& machine_in(session.server, reply) == identifier(data)
            &&& section_in(session.server, reply) == music_section(data)
        },
        answer(session.server, reply) is None ==> {
            &&& find_outcome(session, title, artist, true, reply) == FindingV::Settled(None)
            &&& !scanning(session, reply)
            &&& playlists_in(session.server, answer_or_null(session.server, reply)).len() == 0
            &&& machine_in(session.server, reply) is Err
            &&& section_in(session.server, reply) is Err
        },
{
}

/// A connection to Plex searches in the music section and creates playlists on the machine that the
/// server gave of itself; every connection goes to the server that it was made for.
pub proof fn sessions_use_what_the_server_told(
    server: MediaServerV,
    machine: Seq<char>,
    data: JsonV,
    section: Seq<char>,
    reply: ReplyV,
    title: Seq<char>,
    ids: Seq<Seq<char>>,
)
    requires
        answer(server, reply) == Some(data),
        music_section(data) == Ok::<Seq<char>, Seq<char>>(section),
    ensures
        ready_session(server).server == server,
        plex_session(server, machine, reply) matches Ok(session) && {
            &&& session.server == server
            &&& server is Plex ==> {
                &&& find_call(session, title, title).path == "/library/sections/"@ + section + "/all"@
                &&& scan_call(session).path == "/library/sections/"@ + section + "/refresh"@
                &&& create_call(session, title, ids).query.contains(
                    (
                        "uri"@,
                        "server://"@ + machine + "/com.plexapp.plugins.library/library/metadata/"@
                            + joined(ids, ","@),
                    ),
                )
            }
        },
{
    let session = plex_session(server, machine, reply)->Ok_0;
    if server is Plex {
        let q = create_call(session, title, ids).query;
        assert(q[3] == (
            "uri"@,
            "server://"@ + machine + "/com.plexapp.plugins.library/library/metadata/"@ + joined(
                ids,
                ","@,
            ),
        ));
    }
}

} // verus!
