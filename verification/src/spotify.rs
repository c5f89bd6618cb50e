//! Spotify links: finding out the title and the artists behind one, without an API key.
use vstd::prelude::*;
use vstd::string::*;
use vstd::utf8::encode_utf8;

use crate::http::{document, document_of, get, get_request, pair, pairs};
use crate::http::{Page, PageV, Reply, ReplyV, Request, RequestV};
use crate::json::{json_document, parse, values, Json, JsonV};
use crate::links::{find_page_data, page_data};
use crate::text::{before_first, cat2, cat3, cut_at, join, joined, replace, replaced, texts, trim};
use crate::text::{contains, cuts_are_at_the_first, is_white_space, occurs_at, patterns_are_replaced};
use crate::text::{trimmed, trimming_takes_white_space};

verus! {

/// What the bot knows of a Spotify link: what to search for, and how to show it.
#[derive(Debug, PartialEq)]
pub struct SpotifyMeta<S = String> {
    pub query: S,
    pub label: S,
}

/// What the bot knows of a Spotify link.
pub type SpotifyMetaV = SpotifyMeta<Seq<char>>;

impl View for SpotifyMeta {
    type V = SpotifyMetaV;

    open spec fn view(&self) -> SpotifyMetaV {
        SpotifyMeta { query: self.query@, label: self.label@ }
    }
}

/// What is known of a link, or nothing.
pub open spec fn known(r: Option<SpotifyMeta>) -> Option<SpotifyMetaV> {
    match r {
        Some(m) => Some(m@),
        None => None,
    }
}

// ---- The embed page ------------------------------------------------------------------------

/// The address of the embed page of a link.
pub open spec fn embed_address(url: Seq<char>) -> Seq<char> {
    before_first(replaced(url, "open.spotify.com/"@, "open.spotify.com/embed/"@), '?')
        + "?utm_source=oembed"@
}

/// Gives the address of the embed page of a link.
pub fn embed_url(url: &str) -> (r: String)
    ensures
        r@ == embed_address(url@),
{
    proof {
        reveal_strlit("open.spotify.com/");
    }
    let embed = replace(url, "open.spotify.com/", "open.spotify.com/embed/");
    let bare = cut_at(embed.as_str(), '?');
    cat2(bare.as_str(), "?utm_source=oembed")
}

/// The names that the items of a list have, in order; an item without a name is passed over.
pub open spec fn names(items: Seq<JsonV>) -> Seq<Seq<char>>
    decreases items.len(),
{
    if items.len() == 0 {
        Seq::empty()
    } else {
        match items.last().at("name"@).text() {
            Some(name) => names(items.drop_last()).push(name),
            None => names(items.drop_last()),
        }
    }
}

/// What an embed page describes.
pub open spec fn entity(data: JsonV) -> JsonV {
    data.at("props"@).at("pageProps"@).at("state"@).at("data"@).at("entity"@)
}

/// The title in the data of an embed page, empty where there is none.
pub open spec fn title_in(data: JsonV) -> Seq<char> {
    entity(data).at("name"@).text_or(""@)
}

/// The artists in the data of an embed page, with commas between them.
pub open spec fn artist_in(data: JsonV) -> Seq<char> {
    match entity(data).at("artists"@).items() {
        Some(items) => joined(names(items), ", "@),
        None => Seq::empty(),
    }
}

/// The data of an embed page as a JSON value, where the page has such data.
pub open spec fn data_in(page: Seq<char>) -> Option<JsonV> {
    match page_data(page) {
        Some(data) => match json_document(encode_utf8(data)) {
            Ok(v) => Some(v),
            Err(_) => None,
        },
        None => None,
    }
}

/// The title and the artists that a page gives, both empty where it gives nothing.
pub open spec fn page_metadata(page: PageV) -> (Seq<char>, Seq<char>) {
    match page {
        Reply::Answered { body: Ok(text), .. } => match data_in(text) {
            Some(data) => (title_in(data), artist_in(data)),
            None => (Seq::empty(), Seq::empty()),
        },
        _ => (Seq::empty(), Seq::empty()),
    }
}

fn collect_names(items: &Vec<Json>) -> (r: Vec<String>)
    ensures
        texts(r@) == names(values(items@)),
{
    let ghost all = values(items@);
    let mut out: Vec<String> = Vec::new();
    let mut i: usize = 0;
    assert(texts(out@) =~= names(all.take(0)));
    while i < items.len()
        invariant
            i <= items@.len(),
            all == values(items@),
            texts(out@) == names(all.take(i as int)),
        decreases items@.len() - i,
    {
        assert(all.take(i + 1).drop_last() =~= all.take(i as int));
        assert(all.take(i + 1).last() == items@[i as int]@);
        match items[i].at("name").to_text() {
            Some(name) => {
                let ghost before = out@;
                out.push(name);
                assert(texts(out@) =~= texts(before).push(name@));
            },
            None => {},
        }
        i = i + 1;
    }
    assert(all.take(i as int) =~= all);
    out
}

/// Reads the title and the artists out of the data of an embed page.
pub fn read_metadata(data: &Json) -> (r: (String, String))
    ensures
        r.0@ == title_in(data@),
        r.1@ == artist_in(data@),
{
    let entity = data.at("props").at("pageProps").at("state").at("data").at("entity");
    let title = entity.at("name").text_or("");
    let artist = match entity.at("artists").as_array() {
        Some(items) => join(&collect_names(items), ", "),
        None => String::new(),
    };
    (title, artist)
}

/// Reads the title and the artists that a page gives.
pub fn get_metadata_from_embed(page: &Page) -> (r: (String, String))
    ensures
        (r.0@, r.1@) == page_metadata(page@),
{
    let none = (String::new(), String::new());
    match page {
        Reply::Answered { body, .. } => match body {
            Ok(text) => match find_page_data(text.as_str()) {
                Some(data) => match parse(data.as_str().as_bytes()) {
                    Ok(value) => read_metadata(&value),
                    Err(_) => none,
                },
                None => none,
            },
            Err(_) => none,
        },
        Reply::Unreachable(_) => none,
    }
}

// ---- Resolving a link ----------------------------------------------------------------------

/// What is known once title and artists are: nothing without a title.
pub open spec fn meta_of(title: Seq<char>, artist: Seq<char>) -> Option<SpotifyMetaV> {
    if title.len() == 0 {
        None
    } else {
        Some(
            SpotifyMeta {
                query: trimmed(title + " "@ + artist),
                label: if artist.len() == 0 {
                    title
                } else {
                    title + " — "@ + artist
                },
            },
        )
    }
}

/// Puts together what is known of a link.
pub fn describe(title: &str, artist: &str) -> (r: Option<SpotifyMeta>)
    ensures
        known(r) == meta_of(title@, artist@),
{
    if title.is_empty() {
        return None;
    }
    let query = trim(cat3(title, " ", artist).as_str());
    let label = if artist.is_empty() {
        title.to_owned()
    } else {
        cat3(title, " — ", artist)
    };
    Some(SpotifyMeta { query, label })
}

/// The request for what oEmbed knows of a link.
pub open spec fn oembed_request(url: Seq<char>) -> RequestV {
    get_request("https://open.spotify.com/oembed"@, seq![("url"@, url)])
}

/// The title that oEmbed gives, empty where it gives none.
pub open spec fn oembed_title(reply: ReplyV) -> Seq<char> {
    match document_of(reply) {
        Ok(data) => data.at("title"@).text_or(""@),
        Err(_) => Seq::empty(),
    }
}

/// Reads the title out of what oEmbed says.
pub fn read_oembed(data: &Json) -> (r: String)
    ensures
        r@ == data@.at("title"@).text_or(""@),
{
    data.at("title").text_or("")
}

/// How a link is resolved: with what the embed page gave, or with the title still to be had from
/// oEmbed.
pub enum Resolving {
    Known(Option<SpotifyMeta>),
    AskOembed { request: Request, artist: String },
}

/// Asks for the embed page of a link.
pub fn resolve(url: &str) -> (r: Request)
    ensures
        r@ == get_request(embed_address(url@), Seq::empty()),
{
    let none: Vec<(String, String)> = Vec::new();
    assert(pairs(none@) =~= Seq::empty());
    get(embed_url(url), none)
}

/// How a link is resolved.
pub ghost enum ResolvingV {
    Known(Option<SpotifyMetaV>),
    AskOembed { request: RequestV, artist: Seq<char> },
}

impl View for Resolving {
    type V = ResolvingV;

    open spec fn view(&self) -> ResolvingV {
        match self {
            Resolving::Known(meta) => ResolvingV::Known(known(*meta)),
            Resolving::AskOembed { request, artist } => ResolvingV::AskOembed {
                request: request@,
                artist: artist@,
            },
        }
    }
}

/// How a link is resolved once its embed page is there: oEmbed is asked only where the page gave no
/// title.
pub open spec fn resolving(url: Seq<char>, page: PageV) -> ResolvingV {
    let (title, artist) = page_metadata(page);
    if title.len() == 0 {
        ResolvingV::AskOembed { request: oembed_request(url), artist }
    } else {
        ResolvingV::Known(meta_of(title, artist))
    }
}

/// Goes on once the embed page is there: oEmbed is asked only where the page gave no title.
pub fn resolve_embed(url: &str, page: &Page) -> (r: Resolving)
    ensures
        r@ == resolving(url@, page@),
{
    let (title, artist) = get_metadata_from_embed(page);
    if title.as_str().is_empty() {
        let query: Vec<(String, String)> = vec![pair("url", url)];
        assert(pairs(query@) =~= seq![("url"@, url@)]);
        Resolving::AskOembed {
            request: get("https://open.spotify.com/oembed".to_owned(), query),
            artist,
        }
    } else {
        Resolving::Known(describe(title.as_str(), artist.as_str()))
    }
}

/// Reads the title that oEmbed gives.
pub fn get_title_from_oembed(reply: &Reply) -> (r: String)
    ensures
        r@ == oembed_title(reply@),
{
    match document(reply) {
        Ok(data) => read_oembed(&data),
        Err(_) => String::new(),
    }
}

/// Ends with what oEmbed gave.
pub fn resolve_oembed(artist: &str, reply: &Reply) -> (r: Option<SpotifyMeta>)
    ensures
        known(r) == meta_of(oembed_title(reply@), artist@),
{
    let title = get_title_from_oembed(reply);
    describe(title.as_str(), artist)
}

/// A link is resolved as soon as one of the two sources knows its title, and the embed page is
/// believed first.
pub open spec fn resolved(page: PageV, oembed: ReplyV) -> Option<SpotifyMetaV> {
    let (title, artist) = page_metadata(page);
    if title.len() > 0 {
        meta_of(title, artist)
    } else {
        meta_of(oembed_title(oembed), artist)
    }
}

/// A link stays unresolved exactly where neither source gives a title.
pub proof fn unresolved_without_title(page: PageV, oembed: ReplyV)
    ensures
        resolved(page, oembed) is None <==> page_metadata(page).0.len() == 0 && oembed_title(
            oembed,
        ).len() == 0,
{
}

// ---- Laws ----------------------------------------------------------------------------------

/// A link to a track or an album leads to its embed page: the same path below `embed`, with the
/// link's own parameters replaced by the one that the page takes.
pub proof fn links_lead_to_their_embed_page(
    scheme: Seq<char>,
    path: Seq<char>,
    parameters: Seq<char>,
)
    requires
        scheme == "http://"@ || scheme == "https://"@,
        !path.contains('?'),
        !contains(path + parameters, "open.spotify.com/"@),
        parameters.len() > 0 ==> parameters[0] == '?',
    ensures
        embed_address(scheme + "open.spotify.com/"@ + path + parameters) == scheme
            + "open.spotify.com/embed/"@ + path + "?utm_source=oembed"@,
{
    let from = "open.spotify.com/"@;
    let to = "open.spotify.com/embed/"@;
    reveal_strlit("http://");
    reveal_strlit("https://");
    reveal_strlit("open.spotify.com/");
    reveal_strlit("open.spotify.com/embed/");
    let rest = path + parameters;
    let url = scheme + from + path + parameters;
    assert(url =~= scheme + from + rest);
    assert forall|i: int| 0 <= i < scheme.len() implies !occurs_at(
        scheme + from + rest,
        from,
        i,
    ) by {
        if occurs_at(scheme + from + rest, from, i) {
            assert((scheme + from + rest).subrange(i, i + from.len())[0] == scheme[i]);
            assert(from[0] == 'o');
        }
    }
    patterns_are_replaced(scheme, from, rest, to);
    let head = scheme + to + path;
    assert(!head.contains('?')) by {
        if head.contains('?') {
            let k = choose|k: int| 0 <= k < head.len() && head[k] == '?';
            if k >= scheme.len() + to.len() {
                assert(path[k - scheme.len() - to.len()] == '?');
            }
        }
    }
    if parameters.len() > 0 {
        let more = parameters.skip(1);
        assert(scheme + to + rest =~= head + seq!['?'] + more);
        cuts_are_at_the_first(head, '?', more);
    } else {
        assert(scheme + to + rest =~= head);
        cuts_are_at_the_first(head, '?', parameters);
    }
}

/// The title of a page is the name of what it describes, and the artists are those that it lists by
/// name, in their order.
pub proof fn pages_name_title_and_artists(
    data: JsonV,
    thing: JsonV,
    title: Seq<char>,
    items: Seq<JsonV>,
)
    requires
        data.at("props"@).at("pageProps"@).at("state"@).at("data"@).at("entity"@) == thing,
    ensures
        thing.at("name"@) == JsonV::Text(title) ==> title_in(data) == title,
        thing.at("name"@) !is Text ==> title_in(data).len() == 0,
        thing.at("artists"@) == JsonV::Array(items) ==> artist_in(data) == joined(
            items.filter(|v: JsonV| v.at("name"@) is Text).map_values(
                |v: JsonV| v.at("name"@)->Text_0,
            ),
            ", "@,
        ),
        thing.at("artists"@) !is Array ==> artist_in(data).len() == 0,
{
    reveal_strlit("");
    if thing.at("artists"@) == JsonV::Array(items) {
        names_are_collected(items);
    }
}

proof fn names_are_collected(items: Seq<JsonV>)
    ensures
        names(items) == items.filter(|v: JsonV| v.at("name"@) is Text).map_values(
            |v: JsonV| v.at("name"@)->Text_0,
        ),
    decreases items.len(),
{
    reveal(Seq::filter);
    if items.len() > 0 {
        names_are_collected(items.drop_last());
    }
    assert(names(items) =~= items.filter(|v: JsonV| v.at("name"@) is Text).map_values(
        |v: JsonV| v.at("name"@)->Text_0,
    ));
}

/// A page tells what its data tell; a page that was not had, or that has no data, tells nothing.
pub proof fn pages_tell_what_their_data_tell(
    status: u16,
    reason: Seq<char>,
    text: Seq<char>,
    data: Seq<char>,
    value: JsonV,
)
    ensures
        page_data(text) == Some(data) && json_document(encode_utf8(data)) == Ok::<JsonV, Seq<char>>(
            value,
        ) ==> page_metadata(PageV::Answered { status, reason, body: Ok(text) }) == (
            title_in(value),
            artist_in(value),
        ),
        page_data(text) is None ==> page_metadata(
            PageV::Answered { status, reason, body: Ok(text) },
        ).0.len() == 0,
        page_metadata(PageV::Unreachable(reason)).0.len() == 0,
        page_metadata(PageV::Answered { status, reason, body: Err(reason) }).0.len() == 0,
{
}

/// What is known of a link is searched for by title and artists and shown with both; without artists
/// by the title alone, and without a title there is nothing to search for.
pub proof fn links_are_known_by_title_and_artists(title: Seq<char>, artist: Seq<char>)
    requires
        title.len() > 0 ==> !is_white_space(title[0]) && !is_white_space(title.last()),
        artist.len() > 0 ==> !is_white_space(artist[0]) && !is_white_space(artist.last()),
    ensures
        title.len() == 0 ==> meta_of(title, artist) is None,
        title.len() > 0 && artist.len() > 0 ==> meta_of(title, artist) == Some(
            SpotifyMetaV { query: title + " "@ + artist, label: title + " — "@ + artist },
        ),
        title.len() > 0 && artist.len() == 0 ==> meta_of(title, artist) == Some(
            SpotifyMetaV { query: title, label: title },
        ),
{
    reveal_strlit(" ");
    let all = title + " "@ + artist;
    if title.len() > 0 {
        let cut = trimming_takes_white_space(all);
        assert(all[0] == title[0]);
        assert(all[title.len() - 1] == title.last());
        if artist.len() > 0 {
            assert(all[all.len() - 1] == artist.last());
            assert(cut.0 == 0 && cut.1 == all.len());
            assert(trimmed(all) =~= all);
        } else {
            assert(all[all.len() - 1] == ' ');
            assert(cut.0 == 0 && cut.1 == title.len());
            assert(trimmed(all) =~= title);
        }
    }
}

/// The embed page is believed first: oEmbed, which is asked by the link, only gives the title where
/// the page has none.
pub proof fn the_page_is_believed_first(page: PageV, oembed: ReplyV, url: Seq<char>, title: Seq<char>)
    ensures
        page_metadata(page).0.len() > 0 ==> resolved(page, oembed) == meta_of(
            page_metadata(page).0,
            page_metadata(page).1,
        ),
        page_metadata(page).0.len() == 0 ==> (document_of(oembed) matches Ok(data) && data.at("title"@)
            == JsonV::Text(title) ==> resolved(page, oembed) == meta_of(
            title,
            page_metadata(page).1,
        )),
        document_of(oembed) is Err ==> oembed_title(oembed).len() == 0,
        page_metadata(page).0.len() > 0 ==> resolving(url, page) == ResolvingV::Known(
            resolved(page, oembed),
        ),
        page_metadata(page).0.len() == 0 ==> {
            &&& resolving(url, page) matches ResolvingV::AskOembed { request, artist }
            &&& request.url == "https://open.spotify.com/oembed"@
            &&& request.query == seq![("url"@, url)]
            &&& resolved(page, oembed) == meta_of(oembed_title(oembed), artist)
        },
        oembed_request(url).url == "https://open.spotify.com/oembed"@,
        oembed_request(url).query == seq![("url"@, url)],
{
}

} // verus!
