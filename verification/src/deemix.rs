//! The deemix server: the requests the bot makes of it, and what its replies mean.
use vstd::prelude::*;

use crate::http::{document, document_of, get, get_request, pair, pairs, post, post_json, told};
use crate::http::{BodyV, Method, Reply, ReplyV, Request, RequestV};
use crate::json::{members, members_are_read_by_key, values, Json, JsonV};
use crate::text::{cat2, cat3, signed_decimal, write_signed};

verus! {

// ---- Logging in ----------------------------------------------------------------------------

/// An unsigned number as a JSON value.
pub open spec fn number(n: u8) -> JsonV {
    JsonV::Number { unsigned: Some(n as u64), signed: Some(n as i64) }
}

/// The request that logs in with an ARL.
pub open spec fn login_request(deemix_url: Seq<char>, arl: Seq<char>) -> RequestV {
    post_json(deemix_url + "/api/loginArl"@, JsonV::Object(seq![("arl"@, JsonV::Text(arl))]))
}

/// Asks deemix to log in with an ARL.
pub fn login_arl(deemix_url: &str, arl: &str) -> (r: Request)
    ensures
        r@ == login_request(deemix_url@, arl@),
{
    let entries: Vec<(String, Json)> = vec![("arl".to_owned(), Json::Text(arl.to_owned()))];
    assert(members(entries@) =~= seq![("arl"@, JsonV::Text(arl@))]);
    post(cat2(deemix_url, "/api/loginArl"), Json::object(entries))
}

/// The request that logs in at the start, where an ARL is configured.
pub open spec fn first_login(deemix_url: Seq<char>, arl: Seq<char>) -> Option<RequestV> {
    if arl.len() == 0 {
        None
    } else {
        Some(login_request(deemix_url, arl))
    }
}

/// Asks deemix to log in at the start, where an ARL is configured.
pub fn login(deemix_url: &str, arl: &str) -> (r: Option<Request>)
    ensures
        r is Some <==> arl@.len() > 0,
        r matches Some(q) ==> q@ == login_request(deemix_url@, arl@),
        r matches Some(q) ==> first_login(deemix_url@, arl@) == Some(q@),
        r is None ==> first_login(deemix_url@, arl@) is None,
{
    if arl.is_empty() {
        None
    } else {
        Some(login_arl(deemix_url, arl))
    }
}

/// The user name of a login that succeeded (status 1) or was not needed (status 2).
pub open spec fn login_outcome(data: JsonV) -> Result<Seq<char>, Seq<char>> {
    let status: i64 = match data.at("status"@).signed() {
        Some(n) => n,
        None => 0,
    };
    if status == 1 || status == 2 {
        Ok(data.at("user"@).at("name"@).text_or("unknown"@))
    } else {
        Err("Login failed (status "@ + signed_decimal(status as int) + ")"@)
    }
}

/// What a reply to a login means.
pub open spec fn login_result(reply: ReplyV) -> Result<Seq<char>, Seq<char>> {
    match document_of(reply) {
        Ok(data) => login_outcome(data),
        Err(e) => Err(e),
    }
}

/// Reads what deemix says to a login.
pub fn read_login(data: &Json) -> (r: Result<String, String>)
    ensures
        told(r) == login_outcome(data@),
{
    let status: i64 = match data.at("status").as_i64() {
        Some(n) => n,
        None => 0,
    };
    if status == 1 || status == 2 {
        Ok(data.at("user").at("name").text_or("unknown"))
    } else {
        Err(cat3("Login failed (status ", write_signed(status).as_str(), ")"))
    }
}

/// Reads the reply to a login.
pub fn login_arl_reply(reply: &Reply) -> (r: Result<String, String>)
    ensures
        told(r) == login_result(reply@),
{
    match document(reply) {
        Ok(data) => read_login(&data),
        Err(e) => Err(e),
    }
}

// ---- Queuing -------------------------------------------------------------------------------

/// The request that queues a link in the given quality.
pub open spec fn queue_request(deemix_url: Seq<char>, url: Seq<char>, bitrate: u8) -> RequestV {
    post_json(
        deemix_url + "/api/addToQueue"@,
        JsonV::Object(seq![("url"@, JsonV::Text(url)), ("bitrate"@, number(bitrate))]),
    )
}

/// Asks deemix to download a link in the given quality.
pub fn add_to_queue(deemix_url: &str, url: &str, bitrate: u8) -> (r: Request)
    ensures
        r@ == queue_request(deemix_url@, url@, bitrate),
{
    let quality = Json::Number { unsigned: Some(bitrate as u64), signed: Some(bitrate as i64) };
    let entries: Vec<(String, Json)> = vec![
        ("url".to_owned(), Json::Text(url.to_owned())),
        ("bitrate".to_owned(), quality),
    ];
    assert(members(entries@) =~= seq![("url"@, JsonV::Text(url@)), ("bitrate"@, number(bitrate))]);
    post(cat2(deemix_url, "/api/addToQueue"), Json::object(entries))
}

/// What deemix says to a request to queue: queued, or why not.
pub open spec fn queue_outcome(data: JsonV) -> Result<(), Seq<char>> {
    if data.at("result"@).is_true() {
        Ok(())
    } else {
        Err(data.at("errid"@).text_or("Unknown error"@))
    }
}

/// What a reply to a request to queue means.
pub open spec fn queue_result(reply: ReplyV) -> Result<(), Seq<char>> {
    match document_of(reply) {
        Ok(data) => queue_outcome(data),
        Err(e) => Err(e),
    }
}

/// A deed that was done, or the complaint.
pub open spec fn outcome(r: Result<(), String>) -> Result<(), Seq<char>> {
    match r {
        Ok(()) => Ok(()),
        Err(e) => Err(e@),
    }
}

/// Reads what deemix says to a request to queue.
pub fn read_queued(data: &Json) -> (r: Result<(), String>)
    ensures
        outcome(r) == queue_outcome(data@),
{
    if data.at("result").is_true() {
        Ok(())
    } else {
        Err(data.at("errid").text_or("Unknown error"))
    }
}

/// Reads the reply to a request to queue.
pub fn add_to_queue_reply(reply: &Reply) -> (r: Result<(), String>)
    ensures
        outcome(r) == queue_result(reply@),
{
    match document(reply) {
        Ok(data) => read_queued(&data),
        Err(e) => Err(e),
    }
}

// ---- The queue -----------------------------------------------------------------------------

/// How many items of the queue stand where.
#[derive(Clone, Copy, Debug, PartialEq, Eq, Structural)]
pub struct QueueStatus {
    pub pending: usize,
    pub downloading: usize,
    pub done: usize,
}

/// Where an item of the queue stands.
#[derive(Clone, Copy, Debug, PartialEq, Eq, Structural)]
pub enum Stage {
    Pending,
    Downloading,
    Done,
}

/// A number of an item, or the given one where the item lacks it.
pub open spec fn count_or(v: JsonV, otherwise: u64) -> u64 {
    match v.unsigned() {
        Some(n) => n,
        None => otherwise,
    }
}

/// An item is done once as many tracks are downloaded as it has, and on its way once its
/// progress is above zero.
pub open spec fn stage_of(item: JsonV) -> Stage {
    let downloaded = count_or(item.at("downloaded"@), 0);
    let size = count_or(item.at("size"@), 1);
    if downloaded >= size && size > 0 {
        Stage::Done
    } else if count_or(item.at("progress"@), 0) > 0 {
        Stage::Downloading
    } else {
        Stage::Pending
    }
}

/// How many entries of the queue stand at a stage.
pub open spec fn tally(entries: Seq<(Seq<char>, JsonV)>, stage: Stage) -> nat
    decreases entries.len(),
{
    if entries.len() == 0 {
        0
    } else {
        tally(entries.drop_last(), stage) + if stage_of(entries.last().1) == stage {
            1nat
        } else {
            0nat
        }
    }
}

/// Every item of the queue is pending, on its way or done, and counted once: the three counts
/// add up to the number of items.
pub proof fn tallies_add_up(entries: Seq<(Seq<char>, JsonV)>)
    ensures
        tally(entries, Stage::Pending) + tally(entries, Stage::Downloading) + tally(
            entries,
            Stage::Done,
        ) == entries.len(),
    decreases entries.len(),
{
    if entries.len() > 0 {
        tallies_add_up(entries.drop_last());
    }
}

/// The entries of the queue that a document lists.
pub open spec fn queue_entries(data: JsonV) -> Seq<(Seq<char>, JsonV)> {
    match data.at("queue"@).entries() {
        Some(entries) => entries,
        None => Seq::empty(),
    }
}

/// The request for the queue.
pub open spec fn queue_listing(deemix_url: Seq<char>) -> RequestV {
    get_request(deemix_url + "/api/getQueue"@, Seq::empty())
}

/// Asks deemix for its queue.
pub fn get_queue(deemix_url: &str) -> (r: Request)
    ensures
        r@ == queue_listing(deemix_url@),
{
    let none: Vec<(String, String)> = Vec::new();
    assert(pairs(none@) =~= Seq::empty());
    get(cat2(deemix_url, "/api/getQueue"), none)
}

fn count(item: &Json, key: &str, otherwise: u64) -> (r: u64)
    ensures
        r == count_or(item@.at(key@), otherwise),
{
    match item.at(key).as_u64() {
        Some(n) => n,
        None => otherwise,
    }
}

fn stage(item: &Json) -> (r: Stage)
    ensures
        r == stage_of(item@),
{
    let progress: u64 = count(item, "progress", 0);
    let downloaded: u64 = count(item, "downloaded", 0);
    let size: u64 = count(item, "size", 1);
    if downloaded >= size && size > 0 {
        Stage::Done
    } else if progress > 0 {
        Stage::Downloading
    } else {
        Stage::Pending
    }
}

fn count_stage(entries: &Vec<(String, Json)>, wanted: Stage) -> (r: usize)
    ensures
        r == tally(members(entries@), wanted),
{
    let mut n: usize = 0;
    let mut i: usize = 0;
    while i < entries.len()
        invariant
            n <= i <= entries.len(),
            n == tally(members(entries@).take(i as int), wanted),
        decreases entries@.len() - i,
    {
        let ghost all = members(entries@);
        assert(all.take(i + 1).drop_last() =~= all.take(i as int));
        if stage(&entries[i].1) == wanted {
            n = n + 1;
        }
        i = i + 1;
    }
    assert(members(entries@).take(i as int) =~= members(entries@));
    n
}

/// Counts how many items of the queue stand where.
pub fn read_queue(data: &Json) -> (r: QueueStatus)
    ensures
        r.pending == tally(queue_entries(data@), Stage::Pending),
        r.downloading == tally(queue_entries(data@), Stage::Downloading),
        r.done == tally(queue_entries(data@), Stage::Done),
{
    match data.at("queue").as_object() {
        Some(entries) => QueueStatus {
            pending: count_stage(entries, Stage::Pending),
            downloading: count_stage(entries, Stage::Downloading),
            done: count_stage(entries, Stage::Done),
        },
        None => QueueStatus { pending: 0, downloading: 0, done: 0 },
    }
}

/// Reads how many items of the queue stand where.
pub fn get_queue_reply(reply: &Reply) -> (r: Result<QueueStatus, String>)
    ensures
        match r {
            Ok(q) => {
                &&& document_of(reply@) matches Ok(data)
                &&& q.pending == tally(queue_entries(data), Stage::Pending)
                &&& q.downloading == tally(queue_entries(data), Stage::Downloading)
                &&& q.done == tally(queue_entries(data), Stage::Done)
            },
            Err(e) => document_of(reply@) == Err::<JsonV, Seq<char>>(e@),
        },
{
    match document(reply) {
        Ok(data) => Ok(read_queue(&data)),
        Err(e) => Err(e),
    }
}

/// The status that each entry of the queue reports, under the entry's key.
pub open spec fn statuses(entries: Seq<(Seq<char>, JsonV)>) -> Seq<(Seq<char>, Seq<char>)> {
    entries.map_values(|e: (Seq<char>, JsonV)| (e.0, e.1.at("status"@).text_or(""@)))
}

/// Lists the status of each download in the queue, by the download's key.
pub fn read_statuses(data: &Json) -> (r: Vec<(String, String)>)
    ensures
        pairs(r@) == statuses(queue_entries(data@)),
{
    let mut out: Vec<(String, String)> = Vec::new();
    match data.at("queue").as_object() {
        Some(entries) => {
            let ghost all = members(entries@);
            let mut i: usize = 0;
            while i < entries.len()
                invariant
                    i <= entries@.len(),
                    all == members(entries@),
                    pairs(out@) == statuses(all.take(i as int)),
                decreases entries@.len() - i,
            {
                let status = entries[i].1.at("status").text_or("");
                let ghost before = out@;
                out.push((entries[i].0.clone(), status));
                assert(pairs(out@) =~= pairs(before).push(
                    (all[i as int].0, all[i as int].1.at("status"@).text_or(""@)),
                ));
                assert(statuses(all.take(i + 1)) =~= statuses(all.take(i as int)).push(
                    (all[i as int].0, all[i as int].1.at("status"@).text_or(""@)),
                ));
                i = i + 1;
            }
            assert(all.take(i as int) =~= all);
        },
        None => {
            assert(pairs(out@) =~= statuses(queue_entries(data@)));
        },
    }
    out
}

/// Reads the status of each download in the queue, by the download's key.
pub fn queue_status_map(reply: &Reply) -> (r: Result<Vec<(String, String)>, String>)
    ensures
        match r {
            Ok(map) => {
                &&& document_of(reply@) matches Ok(data)
                &&& pairs(map@) == statuses(queue_entries(data))
            },
            Err(e) => document_of(reply@) == Err::<JsonV, Seq<char>>(e@),
        },
{
    match document(reply) {
        Ok(data) => Ok(read_statuses(&data)),
        Err(e) => Err(e),
    }
}

// ---- Searching -----------------------------------------------------------------------------

/// What is searched for.
#[derive(Clone, Copy, Debug, PartialEq, Eq, Structural)]
pub enum SearchKind {
    Track,
    Album,
}

impl SearchKind {
    /// The name that deemix has for the kind.
    pub open spec fn term(self) -> Seq<char> {
        match self {
            SearchKind::Track => "track"@,
            SearchKind::Album => "album"@,
        }
    }

    /// The name that deemix has for the kind.
    pub fn name(&self) -> (r: &'static str)
        ensures
            r@ == self.term(),
    {
        match self {
            SearchKind::Track => "track",
            SearchKind::Album => "album",
        }
    }
}

/// One search result, as the bot shows it.
#[derive(Debug, PartialEq)]
pub struct Found<S = String> {
    pub title: S,
    pub artist: S,
    pub link: S,
}

/// What a search result shows.
pub type FoundV = Found<Seq<char>>;

impl View for Found {
    type V = FoundV;

    open spec fn view(&self) -> FoundV {
        Found { title: self.title@, artist: self.artist@, link: self.link@ }
    }
}

/// What each search result of a list shows.
pub open spec fn results(list: Seq<Found>) -> Seq<FoundV> {
    list.map_values(|f: Found| f@)
}

/// What an item of deemix's answer shows: a question mark for a name that it lacks.
pub open spec fn found_in(item: JsonV) -> FoundV {
    Found {
        title: item.at("title"@).text_or("?"@),
        artist: item.at("artist"@).at("name"@).text_or("?"@),
        link: item.at("link"@).text_or(""@),
    }
}

/// The items that deemix's answer lists, in either place where it may list them.
pub open spec fn listed(data: JsonV) -> Seq<JsonV> {
    match data.at("data"@).items() {
        Some(items) => items,
        None => match data.at("results"@).at("data"@).items() {
            Some(items) => items,
            None => Seq::empty(),
        },
    }
}

/// At most this many results are shown.
pub const MAX_RESULTS: usize = 8;

/// The first items of a list, at most as many as are shown.
pub open spec fn top<A>(items: Seq<A>) -> Seq<A> {
    if items.len() > MAX_RESULTS {
        items.take(MAX_RESULTS as int)
    } else {
        items
    }
}

/// The results that an answer of deemix gives.
pub open spec fn found_results(data: JsonV) -> Seq<FoundV> {
    top(listed(data)).map_values(|item: JsonV| found_in(item))
}

/// The request for a search.
pub open spec fn search_request(
    deemix_url: Seq<char>,
    query: Seq<char>,
    kind: SearchKind,
) -> RequestV {
    get_request(deemix_url + "/api/search"@, seq![("term"@, query), ("type"@, kind.term())])
}

/// Asks deemix to search.
pub fn search(deemix_url: &str, query: &str, kind: SearchKind) -> (r: Request)
    ensures
        r@ == search_request(deemix_url@, query@, kind),
{
    let q: Vec<(String, String)> = vec![pair("term", query), pair("type", kind.name())];
    assert(pairs(q@) =~= seq![("term"@, query@), ("type"@, kind.term())]);
    get(cat2(deemix_url, "/api/search"), q)
}

fn take_results(items: &Vec<Json>) -> (r: Vec<Found>)
    ensures
        results(r@) == top(values(items@)).map_values(|item: JsonV| found_in(item)),
{
    let ghost all = values(items@);
    let mut out: Vec<Found> = Vec::new();
    let mut i: usize = 0;
    while i < items.len() && i < MAX_RESULTS
        invariant
            i <= items@.len(),
            i <= MAX_RESULTS,
            all == values(items@),
            results(out@) == all.take(i as int).map_values(|item: JsonV| found_in(item)),
        decreases items@.len() - i,
    {
        let item = &items[i];
        let ghost before = out@;
        let one = Found {
            title: item.at("title").text_or("?"),
            artist: item.at("artist").at("name").text_or("?"),
            link: item.at("link").text_or(""),
        };
        out.push(one);
        assert(results(out@) =~= results(before).push(found_in(item@)));
        assert(all.take(i + 1).map_values(|item: JsonV| found_in(item)) =~= all.take(
            i as int,
        ).map_values(|item: JsonV| found_in(item)).push(found_in(item@)));
        i = i + 1;
    }
    assert(all.take(i as int) =~= top(all));
    out
}

/// Lists the results that deemix gives.
pub fn read_results(data: &Json) -> (r: Vec<Found>)
    ensures
        results(r@) == found_results(data@),
{
    match data.at("data").as_array() {
        Some(items) => take_results(items),
        None => match data.at("results").at("data").as_array() {
            Some(items) => take_results(items),
            None => {
                let none: Vec<Found> = Vec::new();
                assert(results(none@) =~= found_results(data@));
                none
            },
        },
    }
}

/// Reads the results of a search.
pub fn search_reply(reply: &Reply) -> (r: Result<Vec<Found>, String>)
    ensures
        match r {
            Ok(list) => {
                &&& document_of(reply@) matches Ok(data)
                &&& results(list@) == found_results(data)
            },
            Err(e) => document_of(reply@) == Err::<JsonV, Seq<char>>(e@),
        },
{
    match document(reply) {
        Ok(data) => Ok(read_results(&data)),
        Err(e) => Err(e),
    }
}

/// No more results come out of a search than are shown.
pub proof fn results_are_few(data: JsonV)
    ensures
        found_results(data).len() <= MAX_RESULTS,
        found_results(data).len() <= listed(data).len(),
{
}

// ---- Laws of requests ----------------------------------------------------------------------

/// What deemix is asked for reaches it: a login posts the ARL, a link is posted with its address and
/// the quality, the queue is asked for, and a search names what to look for and whether it is a track
/// or an album.
pub proof fn requests_say_what_is_wanted(
    deemix_url: Seq<char>,
    text: Seq<char>,
    bitrate: u8,
)
    ensures
        ({
            let login = login_request(deemix_url, text);
            let queue = queue_request(deemix_url, text, bitrate);
            let listing = queue_listing(deemix_url);
            let track = search_request(deemix_url, text, SearchKind::Track);
            let album = search_request(deemix_url, text, SearchKind::Album);
            &&& first_login(deemix_url, text) == (if text.len() > 0 {
                Some(login)
            } else {
                None
            })
            &&& login.method == Method::Post && login.url == deemix_url + "/api/loginArl"@
            &&& login.body matches BodyV::Json(sent) && sent.at("arl"@).text() == Some(text)
            &&& queue.method == Method::Post && queue.url == deemix_url + "/api/addToQueue"@
            &&& queue.body matches BodyV::Json(sent) && {
                &&& sent.at("url"@).text() == Some(text)
                &&& sent.at("bitrate"@).unsigned() == Some(bitrate as u64)
                &&& sent.at("bitrate"@).signed() == Some(bitrate as i64)
            }
            &&& listing.method == Method::Get && listing.url == deemix_url + "/api/getQueue"@
            &&& track.method == Method::Get && album.method == Method::Get
            &&& track.url == deemix_url + "/api/search"@ && album.url == track.url
            &&& track.query.contains(("term"@, text)) && album.query.contains(("term"@, text))
            &&& track.query.contains(("type"@, "track"@))
            &&& album.query.contains(("type"@, "album"@))
            &&& track.query.len() == 2 && album.query.len() == 2
            &&& track.body is Empty && album.body is Empty && listing.body is Empty
            &&& login.headers.len() == 0 && queue.headers.len() == 0 && track.headers.len() == 0
            &&& login.query.len() == 0 && queue.query.len() == 0 && listing.query.len() == 0
        }),
{
    let login = seq![("arl"@, JsonV::Text(text))];
    members_are_read_by_key(login, "arl"@, 0);
    let queue = seq![("url"@, JsonV::Text(text)), ("bitrate"@, number(bitrate))];
    reveal_strlit("url");
    reveal_strlit("bitrate");
    members_are_read_by_key(queue, "url"@, 0);
    assert("url"@.len() != "bitrate"@.len());
    assert(queue[0].0 != "bitrate"@);
    members_are_read_by_key(queue, "bitrate"@, 1);
    let track = search_request(deemix_url, text, SearchKind::Track).query;
    let album = search_request(deemix_url, text, SearchKind::Album).query;
    assert(track[0] == ("term"@, text) && album[0] == ("term"@, text));
    assert(track[1] == ("type"@, "track"@) && album[1] == ("type"@, "album"@));
}

// ---- Laws of answers -----------------------------------------------------------------------

/// A login has succeeded exactly where deemix answers with the status 1 or 2, and then the user is
/// the one that deemix names.
pub proof fn logins_succeed_by_their_status(data: JsonV, user: Seq<char>)
    ensures
        login_outcome(data) is Ok <==> data.at("status"@).signed() == Some(1i64) || data.at(
            "status"@,
        ).signed() == Some(2i64),
        login_outcome(data) is Ok && data.at("user"@).at("name"@).text() == Some(user)
            ==> login_outcome(data) == Ok::<Seq<char>, Seq<char>>(user),
        login_outcome(data) is Ok && data.at("user"@).at("name"@).text() is None ==> login_outcome(
            data,
        ) == Ok::<Seq<char>, Seq<char>>("unknown"@),
        login_outcome(data) matches Err(e) ==> crate::text::contains(
            e,
            match data.at("status"@).signed() {
                Some(n) => signed_decimal(n as int),
                None => signed_decimal(0),
            },
        ),
{
    if let Err(e) = login_outcome(data) {
        let status: i64 = match data.at("status"@).signed() {
            Some(n) => n,
            None => 0,
        };
        crate::text::parts_are_contained(
            "Login failed (status "@,
            signed_decimal(status as int),
            ")"@,
        );
    }
}

/// A link is queued exactly where deemix says that the result is true; else the reason is the one
/// that it gives.
pub proof fn links_are_queued_where_deemix_says_so(data: JsonV, reason: Seq<char>)
    ensures
        queue_outcome(data) is Ok <==> data.at("result"@) == JsonV::Bool(true),
        data.at("result"@) != JsonV::Bool(true) && data.at("errid"@) == JsonV::Text(reason)
            ==> queue_outcome(data) == Err::<(), Seq<char>>(reason),
        data.at("result"@) != JsonV::Bool(true) && data.at("errid"@) !is Text ==> queue_outcome(data)
            == Err::<(), Seq<char>>("Unknown error"@),
{
}

/// A number of an item of the queue.
pub open spec fn reads(item: JsonV, key: Seq<char>, n: u64) -> bool {
    item.at(key) matches JsonV::Number { unsigned: Some(m), .. } && m == n
}

/// Where an item stands, by its numbers: all of its tracks are there, or it has made progress, or it
/// has not begun. An item without a size has one track; without the other numbers it has not begun.
pub proof fn stages_follow_the_numbers(item: JsonV, downloaded: u64, size: u64, progress: u64)
    ensures
        reads(item, "downloaded"@, downloaded) && reads(item, "size"@, size) && size > 0
            && downloaded >= size ==> stage_of(item) == Stage::Done,
        reads(item, "downloaded"@, downloaded) && reads(item, "size"@, size) && reads(
            item,
            "progress"@,
            progress,
        ) && (downloaded < size || size == 0) ==> (if progress > 0 {
            stage_of(item) == Stage::Downloading
        } else {
            stage_of(item) == Stage::Pending
        }),
        reads(item, "downloaded"@, downloaded) && item.at("size"@) !is Number && downloaded >= 1
            ==> stage_of(item) == Stage::Done,
        item.at("downloaded"@) !is Number && item.at("size"@) !is Number ==> stage_of(item)
            != Stage::Done,
        stage_of(item) == Stage::Downloading && reads(item, "progress"@, progress) ==> progress > 0,
        item.at("progress"@) !is Number ==> stage_of(item) != Stage::Downloading,
{
}

/// Each count of the queue is the number of its items at that stage.
pub proof fn stages_are_counted(entries: Seq<(Seq<char>, JsonV)>, stage: Stage)
    ensures
        tally(entries, stage) == entries.filter(
            |e: (Seq<char>, JsonV)| stage_of(e.1) == stage,
        ).len(),
    decreases entries.len(),
{
    reveal(Seq::filter);
    if entries.len() > 0 {
        stages_are_counted(entries.drop_last(), stage);
    }
}

/// The queue is what the document has under `queue`, item by item; a document without it lists none.
pub proof fn queues_are_listed(data: JsonV, entries: Seq<(Seq<char>, JsonV)>)
    ensures
        data.at("queue"@) == JsonV::Object(entries) ==> queue_entries(data) == entries,
        data.at("queue"@) !is Object ==> queue_entries(data).len() == 0,
{
}

/// Every download in the queue is listed under its own key with the status that it reports.
pub proof fn downloads_report_their_status(entries: Seq<(Seq<char>, JsonV)>, i: int, status: Seq<char>)
    requires
        0 <= i < entries.len(),
    ensures
        statuses(entries).len() == entries.len(),
        statuses(entries)[i].0 == entries[i].0,
        entries[i].1.at("status"@) == JsonV::Text(status) ==> statuses(entries)[i].1 == status,
        entries[i].1.at("status"@) !is Text ==> statuses(entries)[i].1.len() == 0,
{
    reveal_strlit("");
}

/// Deemix answers a search with these items: under `data`, or else under `data` of `results`.
pub open spec fn answers_with(data: JsonV, items: Seq<JsonV>) -> bool {
    data.at("data"@) == JsonV::Array(items) || (data.at("data"@) !is Array && data.at("results"@).at(
        "data"@,
    ) == JsonV::Array(items))
}

/// The first eight items that deemix answers with are shown, in their order, and each shows the
/// title, the artist and the link that deemix gives of it. A question mark stands for a name that
/// deemix does not give.
pub proof fn results_show_what_deemix_gives(
    data: JsonV,
    items: Seq<JsonV>,
    i: int,
    title: Seq<char>,
    artist: Seq<char>,
    link: Seq<char>,
)
    requires
        answers_with(data, items),
    ensures
        found_results(data).len() == if items.len() < 8 {
            items.len()
        } else {
            8
        },
        0 <= i < found_results(data).len() ==> {
            let shown = found_results(data)[i];
            let item = items[i];
            &&& item.at("title"@) == JsonV::Text(title) ==> shown.title == title
            &&& item.at("artist"@).at("name"@) == JsonV::Text(artist) ==> shown.artist == artist
            &&& item.at("link"@) == JsonV::Text(link) ==> shown.link == link
            &&& item.at("title"@) !is Text ==> shown.title == "?"@
            &&& item.at("artist"@).at("name"@) !is Text ==> shown.artist == "?"@
            &&& item.at("link"@) !is Text ==> shown.link.len() == 0
        },
{
    reveal_strlit("");
    assert(listed(data) == items);
    if 0 <= i < found_results(data).len() {
        assert(top(items)[i] == items[i]);
        assert(found_results(data)[i] == found_in(items[i]));
    }
}

/// An answer without a list of items gives no results.
pub proof fn no_items_no_results(data: JsonV)
    requires
        data.at("data"@) !is Array,
        data.at("results"@).at("data"@) !is Array,
    ensures
        found_results(data).len() == 0,
{
}

} // verus!
