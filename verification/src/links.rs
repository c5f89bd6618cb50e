//! Links and other patterns that the bot looks for in texts.
use vstd::prelude::*;

use crate::http::given;
use crate::text::{before_first, cat2, cat4, chars_of, contains, is_digit, is_white_space};
use crate::text::occurs_at;

verus! {

// ---- Patterns ------------------------------------------------------------------------------

/// A Deezer link.
pub const DEEZER_URL_RE: &'static str =
    r"https?://(?:www\.)?deezer\.com/(?:[a-z]+/)?(track|album|playlist|artist)/(\d+)";

/// A short Deezer link.
pub const DEEZER_SHORT_RE: &'static str = r"https?://link\.deezer\.com/s/\S+";

/// A link to a track on Spotify.
pub const SPOTIFY_TRACK_RE: &'static str = r"https?://open\.spotify\.com/track/([A-Za-z0-9]+)";

/// A link to an album on Spotify.
pub const SPOTIFY_ALBUM_RE: &'static str = r"https?://open\.spotify\.com/album/([A-Za-z0-9]+)";

/// The script of a Spotify page that holds its data.
pub const NEXT_DATA_RE: &'static str =
    "<script id=\"__NEXT_DATA__\" type=\"application/json\">(.*?)</script>";

/// The line of an environment file that holds the ARL.
pub const ARL_LINE_RE: &'static str =
    r"(?m)^(\x{FEFF}?[\s&&[^\n]]*(?:export[\s&&[^\n]]+)?DEEMIX_ARL[\s&&[^\n]]*=).*";

/// What the line with the ARL begins with where the bot writes it first.
pub const ARL_KEY: &'static str = "DEEMIX_ARL=";

// ---- What the patterns mean ----------------------------------------------------------------

/// Of the characters beyond ASCII: a decimal digit of Unicode.
pub uninterp spec fn is_wide_digit(c: char) -> bool;

/// An ASCII letter or digit.
pub open spec fn is_alphanumeric(c: char) -> bool {
    ('A' <= c && c <= 'Z') || ('a' <= c && c <= 'z') || is_digit(c)
}

/// The prefix stands somewhere in the text, and a character that passes comes right behind.
pub open spec fn continues(text: Seq<char>, prefix: Seq<char>, passes: spec_fn(char) -> bool) -> bool {
    exists|i: int|
        #[trigger] occurs_at(text, prefix, i) && i + prefix.len() < text.len() && passes(
            text[i + prefix.len()],
        )
}

/// The text mentions a web address that begins with `address`, with a character that passes
/// right behind.
pub open spec fn mentions(
    text: Seq<char>,
    address: Seq<char>,
    passes: spec_fn(char) -> bool,
) -> bool {
    continues(text, "http://"@ + address, passes) || continues(text, "https://"@ + address, passes)
}

/// The text mentions a track on Spotify.
pub open spec fn mentions_spotify_track(text: Seq<char>) -> bool {
    mentions(text, "open.spotify.com/track/"@, |c: char| is_alphanumeric(c))
}

/// The text mentions an album on Spotify.
pub open spec fn mentions_spotify_album(text: Seq<char>) -> bool {
    mentions(text, "open.spotify.com/album/"@, |c: char| is_alphanumeric(c))
}

/// The text mentions a short Deezer link.
pub open spec fn mentions_deezer_short(text: Seq<char>) -> bool {
    mentions(text, "link.deezer.com/s/"@, |c: char| !is_white_space(c))
}

/// The start of a Deezer link.
pub open spec fn is_deezer_host(host: Seq<char>) -> bool {
    ||| host == "http://deezer.com/"@
    ||| host == "https://deezer.com/"@
    ||| host == "http://www.deezer.com/"@
    ||| host == "https://www.deezer.com/"@
}

/// The language part of a Deezer link: nothing, or small letters and a slash.
pub open spec fn is_language(lang: Seq<char>) -> bool {
    lang.len() == 0 || (lang.len() >= 2 && lang.last() == '/' && forall|i: int|
        0 <= i < lang.len() - 1 ==> 'a' <= #[trigger] lang[i] && lang[i] <= 'z')
}

/// The kinds of things that a Deezer link leads to.
pub open spec fn is_deezer_kind(kind: Seq<char>) -> bool {
    kind == "track"@ || kind == "album"@ || kind == "playlist"@ || kind == "artist"@
}

/// A Deezer link, up to the first digit of its number, stands at position `i`.
pub open spec fn deezer_link(
    text: Seq<char>,
    i: int,
    host: Seq<char>,
    lang: Seq<char>,
    kind: Seq<char>,
    d: char,
) -> bool {
    &&& occurs_at(text, host + lang + kind + "/"@ + seq![d], i)
    &&& is_deezer_host(host)
    &&& is_language(lang)
    &&& is_deezer_kind(kind)
    &&& is_digit(d) || (d as u32 >= 128 && is_wide_digit(d))
}

/// Some Deezer link stands at position `i`.
pub open spec fn deezer_at(text: Seq<char>, i: int) -> bool {
    exists|host: Seq<char>, lang: Seq<char>, kind: Seq<char>, d: char|
        deezer_link(text, i, host, lang, kind, d)
}

/// The text mentions a Deezer link.
pub open spec fn mentions_deezer(text: Seq<char>) -> bool {
    exists|i: int| deezer_at(text, i)
}

/// The first Deezer link of the text leads to a thing of this kind.
pub open spec fn first_deezer_is(text: Seq<char>, kind: Seq<char>) -> bool {
    exists|i: int, host: Seq<char>, lang: Seq<char>, d: char|
        #[trigger] deezer_link(text, i, host, lang, kind, d) && (forall|j: int|
            j < i ==> !deezer_at(text, j))
}

/// The kind of thing that the first Deezer link of the text leads to.
pub open spec fn deezer_kind(text: Seq<char>) -> Option<Seq<char>> {
    if mentions_deezer(text) {
        Some(choose|kind: Seq<char>| first_deezer_is(text, kind))
    } else {
        None
    }
}

/// The tag before the data of a Spotify page.
pub open spec fn data_open() -> Seq<char> {
    "<script id=\"__NEXT_DATA__\" type=\"application/json\">"@
}

/// The tag behind the data of a Spotify page.
pub open spec fn data_close() -> Seq<char> {
    "</script>"@
}

/// A script with this data, all on one line and up to the nearest closing tag, stands at
/// position `i`.
pub open spec fn data_at(page: Seq<char>, i: int, data: Seq<char>) -> bool {
    &&& occurs_at(page, data_open() + data + data_close(), i)
    &&& !data.contains('\n')
    &&& !contains(data, data_close())
}

/// The first script with data of the page holds this data.
pub open spec fn first_data_is(page: Seq<char>, data: Seq<char>) -> bool {
    exists|i: int|
        #[trigger] data_at(page, i, data) && (forall|j: int, other: Seq<char>|
            j < i ==> !data_at(page, j, other))
}

/// The data of a Spotify page.
pub open spec fn page_data(page: Seq<char>) -> Option<Seq<char>> {
    if exists|i: int, data: Seq<char>| data_at(page, i, data) {
        Some(choose|data: Seq<char>| first_data_is(page, data))
    } else {
        None
    }
}

/// What is left of a text from its first line break on.
pub open spec fn from_line_break(s: Seq<char>) -> Seq<char> {
    s.skip(before_first(s, '\n').len() as int)
}

/// White space that does not end a line, or nothing.
pub open spec fn is_blank(s: Seq<char>) -> bool {
    forall|i: int| 0 <= i < s.len() ==> is_white_space(#[trigger] s[i]) && s[i] != '\n'
}

/// A byte order mark, or nothing.
pub open spec fn is_mark(s: Seq<char>) -> bool {
    s.len() == 0 || s == seq!['\u{feff}']
}

/// The word `export` with blanks behind it, or nothing.
pub open spec fn is_export(word: Seq<char>, gap: Seq<char>) -> bool {
    (word.len() == 0 && gap.len() == 0) || (word == "export"@ && gap.len() > 0 && is_blank(gap))
}

/// The head of the line with the ARL, taken apart: a mark, an indent, `export` and its gap, the
/// name, blanks, and the equals sign.
pub open spec fn head_parts(
    head: Seq<char>,
    mark: Seq<char>,
    indent: Seq<char>,
    word: Seq<char>,
    gap: Seq<char>,
    blanks: Seq<char>,
) -> bool {
    &&& head == mark + indent + word + gap + "DEEMIX_ARL"@ + blanks + "="@
    &&& is_mark(mark)
    &&& is_blank(indent)
    &&& is_export(word, gap)
    &&& is_blank(blanks)
}

/// What the line with the ARL may begin with, up to the ARL itself.
pub open spec fn is_arl_head(head: Seq<char>) -> bool {
    exists|
        mark: Seq<char>,
        indent: Seq<char>,
        word: Seq<char>,
        gap: Seq<char>,
        blanks: Seq<char>,
    |
        head_parts(head, mark, indent, word, gap, blanks)
}

/// A line with the ARL, which begins with this head, stands at position `i`.
pub open spec fn arl_line_at(s: Seq<char>, i: int, head: Seq<char>) -> bool {
    occurs_at(s, head, i) && (i == 0 || s[i - 1] == '\n') && is_arl_head(head)
}

/// The first line with the ARL stands at position `i` and begins with this head.
pub open spec fn first_arl_line_at(s: Seq<char>, i: int, head: Seq<char>) -> bool {
    arl_line_at(s, i, head) && forall|j: int, other: Seq<char>|
        j < i ==> !arl_line_at(s, j, other)
}

/// Where the first line with the ARL stands, and what it begins with.
pub open spec fn arl_line(s: Seq<char>) -> Option<(int, Seq<char>)> {
    if exists|i: int, head: Seq<char>| arl_line_at(s, i, head) {
        Some(choose|at: (int, Seq<char>)| #[trigger] first_arl_line_at(s, at.0, at.1))
    } else {
        None
    }
}

/// The text with the first line with the ARL replaced; a text without one is left alone.
pub open spec fn with_arl_line(s: Seq<char>, line: Seq<char>) -> Seq<char> {
    match arl_line(s) {
        Some((i, _)) => s.take(i) + line + from_line_break(s.skip(i)),
        None => s,
    }
}

/// The ARL that an environment file holds: what follows the head on the first line with one.
pub open spec fn arl_in(s: Seq<char>) -> Option<Seq<char>> {
    match arl_line(s) {
        Some((i, head)) => Some(before_first(s.skip(i + head.len()), '\n')),
        None => None,
    }
}

// ---- The regex engine ----------------------------------------------------------------------

/// `Regex::is_match` tells whether the pattern matches somewhere in the text. Stated of the four
/// link patterns, all of which `Regex::new` accepts: `\d` is a decimal digit of Unicode, `\S` a
/// character without the property White_Space. A match of the Deezer link ends in such digits.
#[verifier::external_body]
fn regex_is_match(pattern: &str, text: &str) -> (r: bool)
    requires
        pattern@ == SPOTIFY_TRACK_RE@ || pattern@ == SPOTIFY_ALBUM_RE@ || pattern@
            == DEEZER_SHORT_RE@ || pattern@ == DEEZER_URL_RE@,
    ensures
        pattern@ == SPOTIFY_TRACK_RE@ ==> r == mentions_spotify_track(text@),
        pattern@ == SPOTIFY_ALBUM_RE@ ==> r == mentions_spotify_album(text@),
        pattern@ == DEEZER_SHORT_RE@ ==> r == mentions_deezer_short(text@),
        pattern@ == DEEZER_URL_RE@ ==> r == mentions_deezer(text@),
        pattern@ == DEEZER_URL_RE@ && r ==> exists|
            i: int,
            host: Seq<char>,
            lang: Seq<char>,
            kind: Seq<char>,
            d: char,
        |
            deezer_link(text@, i, host, lang, kind, d) && (d as u32 >= 128 ==> is_wide_digit(d)),
{
    regex::Regex::new(pattern).unwrap().is_match(text)
}

/// `Regex::captures` finds the leftmost match; `Captures::get` with 1 gives what its first group
/// took part in matching. Stated of the Deezer link, whose first group is the kind, of the data
/// script, whose first group reaches to the nearest closing tag on the same line, and of the ARL
/// line, whose first group is its head: `^` under `m` is the start of a line, `\s` a character with
/// the property White_Space. In all of them the group takes part in every match.
#[verifier::external_body]
fn regex_group(pattern: &str, text: &str) -> (r: Option<Option<String>>)
    requires
        pattern@ == DEEZER_URL_RE@ || pattern@ == NEXT_DATA_RE@ || pattern@ == ARL_LINE_RE@,
    ensures
        pattern@ == DEEZER_URL_RE@ ==> (match r {
            Some(Some(kind)) => deezer_kind(text@) == Some(kind@),
            Some(None) => false,
            None => deezer_kind(text@) is None,
        }),
        pattern@ == NEXT_DATA_RE@ ==> (match r {
            Some(Some(data)) => page_data(text@) == Some(data@),
            Some(None) => false,
            None => page_data(text@) is None,
        }),
        pattern@ == ARL_LINE_RE@ ==> (match r {
            Some(Some(head)) => arl_line(text@) is Some && (arl_line(text@)->0).1 == head@,
            Some(None) => false,
            None => arl_line(text@) is None,
        }),
{
    let re = regex::Regex::new(pattern).unwrap();
    re.captures(text).map(|c| c.get(1).map(|m| m.as_str().to_string()))
}

/// `Regex::replace` with `NoExpand` puts the replacement, as it is, in the place of the first match
/// of the pattern, and leaves the text alone where there is none. Stated of the ARL line, whose
/// match runs from the start of a line to its end: `.` is any character but the line break.
#[verifier::external_body]
fn regex_replace(pattern: &str, text: &str, replacement: &str) -> (r: String)
    requires
        pattern@ == ARL_LINE_RE@,
    ensures
        r@ == with_arl_line(text@, replacement@),
{
    regex::Regex::new(pattern).unwrap().replace(text, regex::NoExpand(replacement)).to_string()
}

// ---- Looking for links ---------------------------------------------------------------------

/// Which kind of link a text mentions, in the order in which the bot looks for them.
#[derive(Clone, Copy, Debug, PartialEq, Eq, Structural)]
pub enum Link {
    Spotify,
    DeezerShort,
    Deezer,
    Nothing,
}

/// The kind of link that counts in a text.
pub open spec fn link_in(text: Seq<char>) -> Link {
    if mentions_spotify_track(text) || mentions_spotify_album(text) {
        Link::Spotify
    } else if mentions_deezer_short(text) {
        Link::DeezerShort
    } else if mentions_deezer(text) {
        Link::Deezer
    } else {
        Link::Nothing
    }
}

/// Tells whether the text mentions a track on Spotify.
pub fn is_spotify_track(text: &str) -> (r: bool)
    ensures
        r == mentions_spotify_track(text@),
{
    regex_is_match(SPOTIFY_TRACK_RE, text)
}

/// Finds the kind of link that counts in a text.
pub fn find_link(text: &str) -> (r: Link)
    ensures
        r == link_in(text@),
{
    if regex_is_match(SPOTIFY_TRACK_RE, text) || regex_is_match(SPOTIFY_ALBUM_RE, text) {
        Link::Spotify
    } else if regex_is_match(DEEZER_SHORT_RE, text) {
        Link::DeezerShort
    } else if regex_is_match(DEEZER_URL_RE, text) {
        Link::Deezer
    } else {
        Link::Nothing
    }
}

/// Finds the kind of thing that the first Deezer link of a text leads to.
pub fn find_deezer_kind(text: &str) -> (r: Option<String>)
    ensures
        given(r) == deezer_kind(text@),
{
    match regex_group(DEEZER_URL_RE, text) {
        Some(Some(kind)) => Some(kind),
        Some(None) => None,
        None => None,
    }
}

/// Finds the data of a Spotify page.
pub fn find_page_data(page: &str) -> (r: Option<String>)
    ensures
        given(r) == page_data(page@),
{
    match regex_group(NEXT_DATA_RE, page) {
        Some(Some(data)) => Some(data),
        Some(None) => None,
        None => None,
    }
}

/// The text with a line break at its end, unless it is empty or has one.
pub open spec fn ended(s: Seq<char>) -> Seq<char> {
    if s.len() == 0 || s.last() == '\n' {
        s
    } else {
        s.push('\n')
    }
}

/// The environment file with a new ARL: it takes the place of the old one behind the head of the
/// line, or comes on a line behind all others where there was none.
pub open spec fn env_with_arl(contents: Seq<char>, arl: Seq<char>) -> Seq<char> {
    match arl_line(contents) {
        Some((_, head)) => with_arl_line(contents, head + arl),
        None => ended(contents) + ARL_KEY@ + arl + "\n"@,
    }
}

fn end_line(s: &str) -> (r: String)
    ensures
        r@ == ended(s@),
{
    let chars = chars_of(s);
    let mut out = s.to_owned();
    if chars.len() > 0 && chars[chars.len() - 1] != '\n' {
        out.push('\n');
    }
    out
}

/// Puts a new ARL into the contents of an environment file.
pub fn put_arl(contents: &str, arl: &str) -> (r: String)
    ensures
        r@ == env_with_arl(contents@, arl@),
{
    match regex_group(ARL_LINE_RE, contents) {
        Some(Some(head)) => regex_replace(
            ARL_LINE_RE,
            contents,
            cat2(head.as_str(), arl).as_str(),
        ),
        _ => cat4(end_line(contents).as_str(), ARL_KEY, arl, "\n"),
    }
}

// ---- Laws of the environment file ----------------------------------------------------------

/// The head of a line ends with its only equals sign, and holds no line break and no number sign.
proof fn heads_end_with_equals(head: Seq<char>)
    requires
        is_arl_head(head),
    ensures
        head.len() > 0,
        head.last() == '=',
        forall|i: int| 0 <= i < head.len() - 1 ==> (#[trigger] head[i]) != '=',
        !head.contains('\n'),
        !head.contains('#'),
{
    reveal_strlit("export");
    reveal_strlit("DEEMIX_ARL");
    reveal_strlit("=");
    let (mark, indent, word, gap, blanks) = choose|
        mark: Seq<char>,
        indent: Seq<char>,
        word: Seq<char>,
        gap: Seq<char>,
        blanks: Seq<char>,
    |
        head_parts(head, mark, indent, word, gap, blanks);
    let name = "DEEMIX_ARL"@;
    let a = mark.len() as int;
    let b = a + indent.len();
    let c = b + word.len();
    let d = c + gap.len();
    let e = d + name.len();
    let f = e + blanks.len();
    assert(head.len() == f + 1);
    assert forall|i: int| 0 <= i < f implies (#[trigger] head[i]) != '=' && head[i] != '\n'
        && head[i] != '#' by {
        if i < a {
            assert(head[i] == mark[i]);
        } else if i < b {
            assert(head[i] == indent[i - a]);
        } else if i < c {
            assert(head[i] == word[i - b]);
        } else if i < d {
            assert(head[i] == gap[i - c]);
        } else if i < e {
            assert(head[i] == name[i - d]);
        } else {
            assert(head[i] == blanks[i - e]);
        }
    }
}

/// At one position there is one head.
proof fn one_head(s: Seq<char>, i: int, a: Seq<char>, b: Seq<char>)
    requires
        arl_line_at(s, i, a),
        arl_line_at(s, i, b),
    ensures
        a == b,
{
    heads_end_with_equals(a);
    heads_end_with_equals(b);
    if a.len() < b.len() {
        assert(s.subrange(i, i + a.len())[a.len() - 1] == s.subrange(i, i + b.len())[a.len() - 1]);
    } else if b.len() < a.len() {
        assert(s.subrange(i, i + a.len())[b.len() - 1] == s.subrange(i, i + b.len())[b.len() - 1]);
    }
}

proof fn some_line_is_first(s: Seq<char>, i: int, head: Seq<char>)
    requires
        arl_line_at(s, i, head),
    ensures
        exists|at: (int, Seq<char>)| #[trigger] first_arl_line_at(s, at.0, at.1),
    decreases i,
{
    if exists|j: int, other: Seq<char>| j < i && arl_line_at(s, j, other) {
        let (j, other) = choose|j: int, other: Seq<char>| j < i && arl_line_at(s, j, other);
        some_line_is_first(s, j, other);
    } else {
        let at = (i, head);
        assert(first_arl_line_at(s, at.0, at.1));
    }
}

proof fn found_line_is_first(s: Seq<char>)
    requires
        arl_line(s) is Some,
    ensures
        first_arl_line_at(s, (arl_line(s)->0).0, (arl_line(s)->0).1),
{
    let (i, head) = choose|i: int, head: Seq<char>| arl_line_at(s, i, head);
    some_line_is_first(s, i, head);
}

/// The first line with the ARL is the one that counts.
pub proof fn first_arl_line_counts(s: Seq<char>, i: int, head: Seq<char>)
    requires
        arl_line_at(s, i, head),
        forall|j: int, other: Seq<char>| j < i ==> !arl_line_at(s, j, other),
    ensures
        arl_line(s) == Some((i, head)),
        arl_in(s) == Some(before_first(s.skip(i + head.len()), '\n')),
{
    found_line_is_first(s);
    one_head(s, i, head, (arl_line(s)->0).1);
}

/// A comment holds no ARL: where a line has a number sign before any equals sign, it is no line with
/// the ARL.
pub proof fn comments_hold_no_arl(s: Seq<char>, i: int, sign: int, head: Seq<char>)
    requires
        0 <= i <= sign < s.len(),
        s[sign] == '#',
        forall|j: int| i <= j < sign ==> s[j] != '=',
    ensures
        !arl_line_at(s, i, head),
{
    if arl_line_at(s, i, head) {
        heads_end_with_equals(head);
        let end = i + head.len() - 1;
        assert(s[end] == head.last());
        assert(s[sign] == head[sign - i]);
    }
}

/// The name and the equals sign may stand bare, behind an indent, or behind `export`.
pub proof fn arl_lines_may_be_exported(indent: Seq<char>, gap: Seq<char>)
    requires
        is_blank(indent),
        is_blank(gap),
    ensures
        is_arl_head(ARL_KEY@),
        is_arl_head(indent + ARL_KEY@),
        gap.len() > 0 ==> is_arl_head(indent + "export"@ + gap + ARL_KEY@),
{
    reveal_strlit("DEEMIX_ARL=");
    reveal_strlit("DEEMIX_ARL");
    reveal_strlit("=");
    let none = Seq::<char>::empty();
    let name = "DEEMIX_ARL"@;
    assert(ARL_KEY@ =~= none + none + none + none + name + none + "="@);
    assert(head_parts(ARL_KEY@, none, none, none, none, none));
    let indented = indent + ARL_KEY@;
    assert(indented =~= none + indent + none + none + name + none + "="@);
    assert(head_parts(indented, none, indent, none, none, none));
    if gap.len() > 0 {
        let exported = indent + "export"@ + gap + ARL_KEY@;
        assert(exported =~= none + indent + "export"@ + gap + name + none + "="@);
        assert(head_parts(exported, none, indent, "export"@, gap, none));
    }
}

proof fn line_break_comes_first(s: Seq<char>)
    ensures
        before_first(s, '\n').len() <= s.len(),
        from_line_break(s).len() == 0 || from_line_break(s)[0] == '\n',
    decreases s.len(),
{
    if s.len() > 0 && s[0] != '\n' {
        line_break_comes_first(s.drop_first());
        assert(from_line_break(s) =~= from_line_break(s.drop_first()));
    } else {
        assert(from_line_break(s) =~= s);
    }
}

proof fn cut_between(a: Seq<char>, b: Seq<char>)
    requires
        !a.contains('\n'),
        b.len() == 0 || b[0] == '\n',
    ensures
        before_first(a + b, '\n') == a,
    decreases a.len(),
{
    if a.len() == 0 {
        assert(a + b =~= b);
        assert(before_first(b, '\n') =~= a);
    } else {
        assert(a[0] != '\n');
        assert(!a.drop_first().contains('\n')) by {
            if a.drop_first().contains('\n') {
                let k = choose|k: int| 0 <= k < a.drop_first().len() && a.drop_first()[k] == '\n';
                assert(a[k + 1] == '\n');
            }
        }
        cut_between(a.drop_first(), b);
        assert((a + b).drop_first() =~= a.drop_first() + b);
        assert(seq![a[0]] + a.drop_first() =~= a);
    }
}

/// Where a text that ends with a line break is followed by another, a line with the ARL that begins
/// in the first is a line of the first.
proof fn no_line_straddles(s: Seq<char>, tail: Seq<char>, j: int, head: Seq<char>)
    requires
        s.len() == 0 || s.last() == '\n',
        j < s.len(),
        arl_line_at(s + tail, j, head),
    ensures
        arl_line_at(s, j, head),
        j + head.len() < s.len(),
{
    let all = s + tail;
    heads_end_with_equals(head);
    if j + head.len() >= s.len() {
        let at = s.len() - 1 - j;
        assert(all.subrange(j, j + head.len())[at] == all[s.len() - 1]);
        assert(head[at] == '\n');
        assert(head.contains('\n'));
    }
    assert(s.subrange(j, j + head.len()) =~= all.subrange(j, j + head.len()));
}

/// A new ARL persists: whatever the environment file held, it gives back the ARL that was last put
/// into it. (An ARL holds no line break.)
pub proof fn arl_reads_back(contents: Seq<char>, arl: Seq<char>)
    requires
        !arl.contains('\n'),
    ensures
        arl_in(env_with_arl(contents, arl)) == Some(arl),
{
    reveal_strlit("\n");
    arl_lines_may_be_exported(Seq::empty(), Seq::empty());
    let (before, head, tail) = match arl_line(contents) {
        Some((i, head)) => (contents.take(i), head, from_line_break(contents.skip(i))),
        None => (ended(contents), ARL_KEY@, "\n"@),
    };
    if arl_line(contents) is Some {
        found_line_is_first(contents);
        line_break_comes_first(contents.skip((arl_line(contents)->0).0));
    }
    let rest = head + arl + tail;
    let after = before + rest;
    let at = before.len() as int;
    assert(env_with_arl(contents, arl) =~= after);
    assert(after.subrange(at, at + head.len()) =~= head);
    assert(before.len() > 0 ==> before.last() == '\n');
    assert(arl_line_at(after, at, head));
    assert forall|j: int, other: Seq<char>| j < at implies !arl_line_at(after, j, other) by {
        if arl_line_at(after, j, other) {
            no_line_straddles(before, rest, j, other);
            assert(contents.subrange(j, j + other.len()) =~= before.subrange(j, j + other.len()));
            assert(arl_line_at(contents, j, other));
        }
    }
    first_arl_line_counts(after, at, head);
    assert(after.skip(at + head.len()) =~= arl + tail);
    cut_between(arl, tail);
}

/// The rest of an environment file stays: a new ARL changes what follows the head of its own line,
/// and nothing else.
pub proof fn other_lines_stay(contents: Seq<char>, arl: Seq<char>)
    ensures
        match arl_line(contents) {
            Some((i, head)) => {
                let old = before_first(contents.skip(i), '\n');
                let behind = from_line_break(contents.skip(i));
                &&& contents == contents.take(i) + old + behind
                &&& env_with_arl(contents, arl) == contents.take(i) + (head + arl) + behind
            },
            None => {
                &&& env_with_arl(contents, arl).len() >= contents.len()
                &&& env_with_arl(contents, arl).take(contents.len() as int) == contents
            },
        },
{
    match arl_line(contents) {
        Some((i, head)) => {
            found_line_is_first(contents);
            before_first_is_prefix(contents.skip(i));
            let old = before_first(contents.skip(i), '\n');
            assert(contents =~= contents.take(i) + old + from_line_break(contents.skip(i)));
        },
        None => {
            assert(env_with_arl(contents, arl).take(contents.len() as int) =~= contents);
        },
    }
}

proof fn before_first_is_prefix(s: Seq<char>)
    ensures
        before_first(s, '\n').len() <= s.len(),
        s.take(before_first(s, '\n').len() as int) == before_first(s, '\n'),
    decreases s.len(),
{
    if s.len() > 0 && s[0] != '\n' {
        let rest = s.drop_first();
        let n = before_first(rest, '\n').len();
        before_first_is_prefix(rest);
        assert(s.take((n + 1) as int) =~= seq![s[0]] + rest.take(n as int));
    } else {
        assert(s.take(0) =~= Seq::empty());
    }
}

// ---- Laws of links -------------------------------------------------------------------------

/// A link to a track or an album on Spotify counts as one: the address, and an identifier of
/// ASCII letters and digits.
pub proof fn spotify_links_count(scheme: Seq<char>, address: Seq<char>, id: Seq<char>)
    requires
        scheme == "http://"@ || scheme == "https://"@,
        address == "open.spotify.com/track/"@ || address == "open.spotify.com/album/"@,
        id.len() > 0,
        forall|i: int| 0 <= i < id.len() ==> is_alphanumeric(#[trigger] id[i]),
    ensures
        link_in(scheme + address + id) == Link::Spotify,
        mentions_spotify_track(scheme + address + id) <== address == "open.spotify.com/track/"@,
{
    let text = scheme + address + id;
    let prefix = scheme + address;
    assert(text.subrange(0, prefix.len() as int) =~= prefix);
    assert(occurs_at(text, prefix, 0));
    assert(text[prefix.len() as int] == id[0]);
}

/// An address cannot be mentioned where the only colon of the text is followed by something else.
proof fn one_colon_one_address(
    text: Seq<char>,
    c: int,
    address: Seq<char>,
    passes: spec_fn(char) -> bool,
)
    requires
        0 <= c && c + 3 < text.len(),
        forall|k: int| 0 <= k < text.len() && #[trigger] text[k] == ':' ==> k == c,
        address.len() > 0,
        text[c + 3] != address[0],
    ensures
        !mentions(text, address, passes),
{
    reveal_strlit("http://");
    reveal_strlit("https://");
    let plain = "http://"@ + address;
    let secure = "https://"@ + address;
    assert forall|i: int| !occurs_at(text, plain, i) by {
        if occurs_at(text, plain, i) {
            assert(text.subrange(i, i + plain.len())[4] == ':');
            assert(text.subrange(i, i + plain.len())[7] == address[0]);
        }
    }
    assert forall|i: int| !occurs_at(text, secure, i) by {
        if occurs_at(text, secure, i) {
            assert(text.subrange(i, i + secure.len())[5] == ':');
            assert(text.subrange(i, i + secure.len())[8] == address[0]);
        }
    }
}

/// Two heads without a slash, each with a slash behind it in the same text, are the same.
proof fn same_head(text: Seq<char>, at: int, a: Seq<char>, b: Seq<char>)
    requires
        0 <= at,
        at + a.len() < text.len(),
        at + b.len() < text.len(),
        !a.contains('/'),
        !b.contains('/'),
        forall|k: int| 0 <= k < a.len() ==> text[at + k] == a[k],
        forall|k: int| 0 <= k < b.len() ==> text[at + k] == b[k],
        text[at + a.len()] == '/',
        text[at + b.len()] == '/',
    ensures
        a == b,
{
    if a.len() < b.len() {
        assert(b[a.len() as int] == '/');
        assert(false);
    }
    if b.len() < a.len() {
        assert(a[b.len() as int] == '/');
        assert(false);
    }
    assert(a =~= b);
}

proof fn kinds_are_letters(kind: Seq<char>)
    requires
        is_deezer_kind(kind),
    ensures
        kind.len() > 0,
        !kind.contains('/'),
        forall|k: int| 0 <= k < kind.len() ==> 'a' <= #[trigger] kind[k] && kind[k] <= 'z',
{
    reveal_strlit("track");
    reveal_strlit("album");
    reveal_strlit("playlist");
    reveal_strlit("artist");
}

proof fn hosts_have_one_colon(host: Seq<char>)
    requires
        is_deezer_host(host),
    ensures
        host.len() > 8,
        host[4] == ':' || host[5] == ':',
        host[4] == ':' ==> forall|k: int| 0 <= k < host.len() && #[trigger] host[k] == ':' ==> k == 4,
        host[5] == ':' ==> forall|k: int| 0 <= k < host.len() && #[trigger] host[k] == ':' ==> k == 5,
        host[4] == ':' ==> host[7] == 'd' || host[7] == 'w',
        host[5] == ':' ==> host[8] == 'd' || host[8] == 'w',
{
    reveal_strlit("http://deezer.com/");
    reveal_strlit("https://deezer.com/");
    reveal_strlit("http://www.deezer.com/");
    reveal_strlit("https://www.deezer.com/");
}

proof fn hosts_differ_early(text: Seq<char>, a: Seq<char>, b: Seq<char>)
    requires
        is_deezer_host(a),
        is_deezer_host(b),
        a.len() <= text.len(),
        b.len() <= text.len(),
        text.take(a.len() as int) == a,
        text.take(b.len() as int) == b,
    ensures
        a == b,
{
    reveal_strlit("http://deezer.com/");
    reveal_strlit("https://deezer.com/");
    reveal_strlit("http://www.deezer.com/");
    reveal_strlit("https://www.deezer.com/");
    assert(a[4] == text.take(a.len() as int)[4]);
    assert(b[4] == text.take(b.len() as int)[4]);
    assert(a[7] == text.take(a.len() as int)[7]);
    assert(b[7] == text.take(b.len() as int)[7]);
    assert(a[8] == text.take(a.len() as int)[8]);
    assert(b[8] == text.take(b.len() as int)[8]);
}

/// What a link at the start of the text says, character by character.
proof fn spelled_out(
    text: Seq<char>,
    host: Seq<char>,
    lang: Seq<char>,
    kind: Seq<char>,
    d: char,
)
    requires
        deezer_link(text, 0, host, lang, kind, d),
    ensures
        host.len() + lang.len() + kind.len() + 2 <= text.len(),
        text.take(host.len() as int) == host,
        forall|k: int| 0 <= k < lang.len() ==> text[host.len() + k] == lang[k],
        forall|k: int| 0 <= k < kind.len() ==> text[host.len() + lang.len() + k] == kind[k],
        text[(host.len() + lang.len() + kind.len()) as int] == '/',
        text[(host.len() + lang.len() + kind.len() + 1) as int] == d,
{
    reveal_strlit("/");
    let link = host + lang + kind + "/"@ + seq![d];
    let start = text.subrange(0, link.len() as int);
    assert(start == link);
    assert(text.take(host.len() as int) =~= host) by {
        assert forall|k: int| 0 <= k < host.len() implies text[k] == host[k] by {
            assert(start[k] == link[k]);
        }
    }
    assert forall|k: int| 0 <= k < lang.len() implies text[host.len() + k] == lang[k] by {
        assert(start[host.len() + k] == link[host.len() + k]);
    }
    assert forall|k: int| 0 <= k < kind.len() implies text[host.len() + lang.len() + k]
        == kind[k] by {
        assert(start[host.len() + lang.len() + k] == link[host.len() + lang.len() + k]);
    }
    let slash = (host.len() + lang.len() + kind.len()) as int;
    assert(start[slash] == link[slash]);
    assert(start[slash + 1] == link[slash + 1]);
}

/// The letters of a language part, without its slash.
proof fn language_letters(lang: Seq<char>)
    requires
        is_language(lang),
        lang.len() > 0,
    ensures
        !lang.drop_last().contains('/'),
        lang.drop_last().len() > 0,
        'a' <= lang[0] && lang[0] <= 'z',
{
}

/// Two readings of the link at the start of a text name the same kind.
proof fn one_reading(
    text: Seq<char>,
    host: Seq<char>,
    lang: Seq<char>,
    kind: Seq<char>,
    d: char,
    host2: Seq<char>,
    lang2: Seq<char>,
    kind2: Seq<char>,
    d2: char,
)
    requires
        deezer_link(text, 0, host, lang, kind, d),
        deezer_link(text, 0, host2, lang2, kind2, d2),
    ensures
        kind == kind2,
{
    spelled_out(text, host, lang, kind, d);
    spelled_out(text, host2, lang2, kind2, d2);
    hosts_differ_early(text, host, host2);
    kinds_are_letters(kind);
    kinds_are_letters(kind2);
    let at = host.len() as int;
    if lang.len() == 0 && lang2.len() == 0 {
        same_head(text, at, kind, kind2);
    } else if lang.len() > 0 && lang2.len() > 0 {
        language_letters(lang);
        language_letters(lang2);
        same_head(text, at, lang.drop_last(), lang2.drop_last());
        assert(lang.len() == lang2.len());
        same_head(text, at + lang.len(), kind, kind2);
    } else if lang.len() > 0 {
        language_letters(lang);
        same_head(text, at, lang.drop_last(), kind2);
        assert(text[at + lang.len()] == kind[0]);
        assert(d2 == kind[0]);
        assert(false);
    } else {
        language_letters(lang2);
        same_head(text, at, kind, lang2.drop_last());
        assert(text[at + lang2.len()] == kind2[0]);
        assert(d == kind2[0]);
        assert(false);
    }
}

/// A Deezer link counts as one and leads to what it names: the host, a language or none, the kind
/// and a number.
pub proof fn deezer_links_count(
    host: Seq<char>,
    lang: Seq<char>,
    kind: Seq<char>,
    number: Seq<char>,
)
    requires
        is_deezer_host(host),
        is_language(lang),
        is_deezer_kind(kind),
        number.len() > 0,
        forall|i: int| 0 <= i < number.len() ==> is_digit(#[trigger] number[i]),
    ensures
        link_in(host + lang + kind + "/"@ + number) == Link::Deezer,
        deezer_kind(host + lang + kind + "/"@ + number) == Some(kind),
{
    let text = host + lang + kind + "/"@ + number;
    reveal_strlit("/");
    kinds_are_letters(kind);
    hosts_have_one_colon(host);
    let c: int = if host[4] == ':' {
        4
    } else {
        5
    };
    assert(text[c + 3] == host[c + 3]);
    assert forall|k: int| 0 <= k < text.len() && #[trigger] text[k] == ':' implies k == c by {
        if k < host.len() {
            assert(host[k] == ':');
        } else if k < host.len() + lang.len() {
            assert(text[k] == lang[k - host.len()]);
        } else if k < host.len() + lang.len() + kind.len() {
            assert(text[k] == kind[k - host.len() - lang.len()]);
        } else if k > host.len() + lang.len() + kind.len() {
            assert(text[k] == number[k - host.len() - lang.len() - kind.len() - 1]);
        }
    }
    reveal_strlit("open.spotify.com/track/");
    reveal_strlit("open.spotify.com/album/");
    reveal_strlit("link.deezer.com/s/");
    one_colon_one_address(
        text,
        c,
        "open.spotify.com/track/"@,
        |c: char| is_alphanumeric(c),
    );
    one_colon_one_address(
        text,
        c,
        "open.spotify.com/album/"@,
        |c: char| is_alphanumeric(c),
    );
    one_colon_one_address(text, c, "link.deezer.com/s/"@, |c: char| !is_white_space(c));
    let d = number[0];
    let link = host + lang + kind + "/"@ + seq![d];
    assert(text.subrange(0, link.len() as int) =~= link);
    assert(deezer_link(text, 0, host, lang, kind, d));
    assert(deezer_at(text, 0));
    assert(first_deezer_is(text, kind)) by {
        assert forall|j: int| j < 0 implies !deezer_at(text, j) by {
        }
    }
    let chosen = choose|k: Seq<char>| first_deezer_is(text, k);
    assert(first_deezer_is(text, chosen));
    let (i, host2, lang2, d2) = choose|i: int, host2: Seq<char>, lang2: Seq<char>, d2: char|
        #[trigger] deezer_link(text, i, host2, lang2, chosen, d2) && (forall|j: int|
            j < i ==> !deezer_at(text, j));
    assert(i == 0);
    one_reading(text, host, lang, kind, d, host2, lang2, chosen, d2);
}

/// Of two stretches of a page that both end at a closing tag, the shorter one is no shorter if
/// the longer one holds no closing tag.
proof fn no_shorter_data(page: Seq<char>, at: int, a: Seq<char>, b: Seq<char>)
    requires
        occurs_at(page, a + data_close(), at),
        occurs_at(page, b + data_close(), at),
        !contains(b, data_close()),
    ensures
        a.len() >= b.len(),
{
    reveal_strlit("</script>");
    let close = data_close();
    let x = page.subrange(at, at + (a + close).len());
    let y = page.subrange(at, at + (b + close).len());
    if a.len() < b.len() {
        assert forall|k: int| 0 <= k < close.len() implies page[at + a.len() + k] == close[k] by {
            assert(x[a.len() + k] == (a + close)[a.len() + k]);
        }
        if a.len() + close.len() <= b.len() {
            assert(b.subrange(a.len() as int, (a.len() + close.len()) as int) =~= close) by {
                assert forall|k: int| 0 <= k < close.len() implies b[a.len() + k] == close[k] by {
                    assert(y[a.len() + k] == (b + close)[a.len() + k]);
                }
            }
            assert(occurs_at(b, close, a.len() as int));
        } else {
            let k = b.len() - a.len();
            assert(y[b.len() as int] == (b + close)[b.len() as int]);
            assert(page[at + a.len() + k] == close[k]);
            assert(close[0] == '<' && close[k] != '<');
        }
        assert(false);
    }
}

/// The data of a page is found: a page with one data script, on one line, gives back what the
/// script holds.
pub proof fn page_data_reads_back(before: Seq<char>, data: Seq<char>, behind: Seq<char>)
    requires
        !data.contains('\n'),
        !contains(data, data_close()),
        forall|i: int|
            #[trigger] occurs_at(
                before + data_open() + data + data_close() + behind,
                data_open(),
                i,
            ) ==> i == before.len(),
    ensures
        page_data(before + data_open() + data + data_close() + behind) == Some(data),
{
    let page = before + data_open() + data + data_close() + behind;
    let at = before.len() as int;
    let script = data_open() + data + data_close();
    assert(page.subrange(at, at + script.len()) =~= script);
    assert(data_at(page, at, data));
    assert forall|i: int, other: Seq<char>| data_at(page, i, other) implies i == at by {
        let whole = data_open() + other + data_close();
        assert(page.subrange(i, i + data_open().len()) =~= data_open()) by {
            assert forall|k: int| 0 <= k < data_open().len() implies page[i + k]
                == data_open()[k] by {
                assert(page.subrange(i, i + whole.len())[k] == whole[k]);
            }
        }
        assert(occurs_at(page, data_open(), i));
    }
    assert(first_data_is(page, data));
    let chosen = choose|g: Seq<char>| first_data_is(page, g);
    let i = choose|i: int|
        #[trigger] data_at(page, i, chosen) && (forall|j: int, other: Seq<char>|
            j < i ==> !data_at(page, j, other));
    assert(i == at);
    let inner = at + data_open().len();
    let whole = data_open() + chosen + data_close();
    assert(page.subrange(inner, inner + (chosen + data_close()).len()) =~= chosen
        + data_close()) by {
        assert forall|k: int| 0 <= k < (chosen + data_close()).len() implies page[inner + k] == (
        chosen + data_close())[k] by {
            assert(page.subrange(at, at + whole.len())[data_open().len() + k]
                == whole[data_open().len() + k]);
        }
    }
    assert(page.subrange(inner, inner + (data + data_close()).len()) =~= data + data_close());
    no_shorter_data(page, inner, chosen, data);
    no_shorter_data(page, inner, data, chosen);
    assert(chosen =~= data) by {
        assert forall|k: int| 0 <= k < data.len() implies chosen[k] == data[k] by {
            assert(page.subrange(inner, inner + (chosen + data_close()).len())[k] == chosen[k]);
            assert(page.subrange(inner, inner + (data + data_close()).len())[k] == data[k]);
        }
    }
}

/// An address cannot be mentioned where the only colon of the text is followed, at some distance, by
/// something else.
proof fn one_colon_no_other_address(
    text: Seq<char>,
    c: int,
    address: Seq<char>,
    passes: spec_fn(char) -> bool,
    k: int,
)
    requires
        0 <= c && c + 3 + k < text.len(),
        forall|j: int| 0 <= j < text.len() && #[trigger] text[j] == ':' ==> j == c,
        0 <= k < address.len(),
        text[c + 3 + k] != address[k],
    ensures
        !mentions(text, address, passes),
{
    reveal_strlit("http://");
    reveal_strlit("https://");
    let plain = "http://"@ + address;
    let secure = "https://"@ + address;
    assert forall|i: int| !occurs_at(text, plain, i) by {
        if occurs_at(text, plain, i) {
            assert(text.subrange(i, i + plain.len())[4] == ':');
            assert(text.subrange(i, i + plain.len())[7 + k] == address[k]);
        }
    }
    assert forall|i: int| !occurs_at(text, secure, i) by {
        if occurs_at(text, secure, i) {
            assert(text.subrange(i, i + secure.len())[5] == ':');
            assert(text.subrange(i, i + secure.len())[8 + k] == address[k]);
        }
    }
}

/// A link to a track on Spotify is one to a track, and a link to an album is not.
pub proof fn albums_are_no_tracks(scheme: Seq<char>, id: Seq<char>)
    requires
        scheme == "http://"@ || scheme == "https://"@,
        id.len() > 0,
        forall|i: int| 0 <= i < id.len() ==> is_alphanumeric(#[trigger] id[i]),
    ensures
        mentions_spotify_track(scheme + "open.spotify.com/track/"@ + id),
        !mentions_spotify_track(scheme + "open.spotify.com/album/"@ + id),
{
    spotify_links_count(scheme, "open.spotify.com/track/"@, id);
    reveal_strlit("http://");
    reveal_strlit("https://");
    reveal_strlit("open.spotify.com/track/");
    reveal_strlit("open.spotify.com/album/");
    let album = "open.spotify.com/album/"@;
    let text = scheme + album + id;
    let c = scheme.len() - 3;
    assert forall|j: int| 0 <= j < text.len() && #[trigger] text[j] == ':' implies j == c by {
        if j < scheme.len() {
            assert(scheme[j] == ':');
        } else if j < scheme.len() + album.len() {
            assert(text[j] == album[j - scheme.len()]);
        } else {
            assert(text[j] == id[j - scheme.len() - album.len()]);
        }
    }
    assert(text[c + 3 + 17] == album[17]);
    one_colon_no_other_address(
        text,
        c,
        "open.spotify.com/track/"@,
        |x: char| is_alphanumeric(x),
        17,
    );
}

/// A short Deezer link is followed, wherever it leads.
pub proof fn short_links_count(scheme: Seq<char>, rest: Seq<char>)
    requires
        scheme == "http://"@ || scheme == "https://"@,
        rest.len() > 0,
        !is_white_space(rest[0]),
        !rest.contains(':'),
    ensures
        link_in(scheme + "link.deezer.com/s/"@ + rest) == Link::DeezerShort,
{
    reveal_strlit("http://");
    reveal_strlit("https://");
    reveal_strlit("open.spotify.com/track/");
    reveal_strlit("open.spotify.com/album/");
    reveal_strlit("link.deezer.com/s/");
    let short = "link.deezer.com/s/"@;
    let prefix = scheme + short;
    let text = prefix + rest;
    let c = scheme.len() - 3;
    assert forall|j: int| 0 <= j < text.len() && #[trigger] text[j] == ':' implies j == c by {
        if j < scheme.len() {
            assert(scheme[j] == ':');
        } else if j < prefix.len() {
            assert(text[j] == short[j - scheme.len()]);
        } else {
            assert(text[j] == rest[j - prefix.len()]);
            assert(rest.contains(':'));
        }
    }
    assert(text[c + 3] == short[0]);
    one_colon_one_address(
        text,
        c,
        "open.spotify.com/track/"@,
        |x: char| is_alphanumeric(x),
    );
    one_colon_one_address(
        text,
        c,
        "open.spotify.com/album/"@,
        |x: char| is_alphanumeric(x),
    );
    assert(text.subrange(0, prefix.len() as int) =~= prefix);
    assert(occurs_at(text, prefix, 0));
    assert(text[prefix.len() as int] == rest[0]);
}

proof fn no_colon_no_address(text: Seq<char>, address: Seq<char>, passes: spec_fn(char) -> bool)
    requires
        !text.contains(':'),
    ensures
        !mentions(text, address, passes),
{
    reveal_strlit("http://");
    reveal_strlit("https://");
    let plain = "http://"@ + address;
    let secure = "https://"@ + address;
    assert forall|i: int| !occurs_at(text, plain, i) by {
        if occurs_at(text, plain, i) {
            assert(text.subrange(i, i + plain.len())[4] == ':');
            assert(text[i + 4] == ':');
        }
    }
    assert forall|i: int| !occurs_at(text, secure, i) by {
        if occurs_at(text, secure, i) {
            assert(text.subrange(i, i + secure.len())[5] == ':');
            assert(text[i + 5] == ':');
        }
    }
}

/// A text without a colon, as the name of a song is, holds no link.
pub proof fn plain_names_are_no_links(text: Seq<char>)
    requires
        !text.contains(':'),
    ensures
        link_in(text) == Link::Nothing,
        deezer_kind(text) is None,
{
    no_colon_no_address(text, "open.spotify.com/track/"@, |c: char| is_alphanumeric(c));
    no_colon_no_address(text, "open.spotify.com/album/"@, |c: char| is_alphanumeric(c));
    no_colon_no_address(text, "link.deezer.com/s/"@, |c: char| !is_white_space(c));
    assert forall|i: int| !deezer_at(text, i) by {
        if deezer_at(text, i) {
            let (host, lang, kind, d) = choose|
                host: Seq<char>,
                lang: Seq<char>,
                kind: Seq<char>,
                d: char,
            |
                deezer_link(text, i, host, lang, kind, d);
            let link = host + lang + kind + "/"@ + seq![d];
            hosts_have_one_colon(host);
            let c: int = if host[4] == ':' {
                4
            } else {
                5
            };
            assert(text.subrange(i, i + link.len())[c] == link[c]);
            assert(link[c] == host[c]);
            assert(text[i + c] == ':');
        }
    }
}

/// Links to `deezer.com`, with `www.` or without it and with a language or without one, to a track, an
/// album, a playlist or an artist count as Deezer links of that kind.
pub proof fn deezer_addresses_count(
    scheme: Seq<char>,
    www: Seq<char>,
    lang: Seq<char>,
    kind: Seq<char>,
    number: Seq<char>,
)
    requires
        scheme == "http://"@ || scheme == "https://"@,
        www.len() == 0 || www == "www."@,
        lang.len() == 0 || (lang.len() >= 2 && lang.last() == '/' && forall|i: int|
            0 <= i < lang.len() - 1 ==> 'a' <= #[trigger] lang[i] && lang[i] <= 'z'),
        kind == "track"@ || kind == "album"@ || kind == "playlist"@ || kind == "artist"@,
        number.len() > 0,
        forall|i: int| 0 <= i < number.len() ==> '0' <= #[trigger] number[i] && number[i] <= '9',
    ensures
        link_in(scheme + www + "deezer.com/"@ + lang + kind + "/"@ + number) == Link::Deezer,
        deezer_kind(scheme + www + "deezer.com/"@ + lang + kind + "/"@ + number) == Some(kind),
{
    reveal_strlit("http://");
    reveal_strlit("https://");
    reveal_strlit("www.");
    reveal_strlit("deezer.com/");
    reveal_strlit("http://deezer.com/");
    reveal_strlit("https://deezer.com/");
    reveal_strlit("http://www.deezer.com/");
    reveal_strlit("https://www.deezer.com/");
    let host = scheme + www + "deezer.com/"@;
    if scheme == "http://"@ && www.len() == 0 {
        assert(host =~= "http://deezer.com/"@);
    } else if scheme == "http://"@ {
        assert(host =~= "http://www.deezer.com/"@);
    } else if www.len() == 0 {
        assert(host =~= "https://deezer.com/"@);
    } else {
        assert(host =~= "https://www.deezer.com/"@);
    }
    deezer_links_count(host, lang, kind, number);
}

/// The data of a Spotify page are what stands in its data script.
pub proof fn spotify_pages_give_their_data(before: Seq<char>, data: Seq<char>, behind: Seq<char>)
    requires
        !data.contains('\n'),
        !contains(data, "</script>"@),
        forall|i: int|
            #[trigger] occurs_at(
                before + "<script id=\"__NEXT_DATA__\" type=\"application/json\">"@ + data
                    + "</script>"@ + behind,
                "<script id=\"__NEXT_DATA__\" type=\"application/json\">"@,
                i,
            ) ==> i == before.len(),
    ensures
        page_data(
            before + "<script id=\"__NEXT_DATA__\" type=\"application/json\">"@ + data
                + "</script>"@ + behind,
        ) == Some(data),
{
    page_data_reads_back(before, data, behind);
}

/// The ARL stands under the name `DEEMIX_ARL`: a line with that name and an equals sign holds it,
/// and a file without one ends with such a line once an ARL is put into it.
pub proof fn the_arl_stands_under_its_name(contents: Seq<char>, arl: Seq<char>, indent: Seq<char>)
    requires
        is_blank(indent),
    ensures
        is_arl_head("DEEMIX_ARL="@),
        is_arl_head(indent + "DEEMIX_ARL="@),
        is_arl_head("export "@ + "DEEMIX_ARL="@),
        arl_line(contents) is None ==> {
            let after = env_with_arl(contents, arl);
            let line = "DEEMIX_ARL="@ + arl + "\n"@;
            &&& after.len() >= line.len()
            &&& after.skip(after.len() - line.len()) == line
        },
{
    reveal_strlit("export ");
    reveal_strlit("export");
    reveal_strlit("DEEMIX_ARL=");
    let none = Seq::<char>::empty();
    let gap = seq![' '];
    arl_lines_may_be_exported(indent, gap);
    arl_lines_may_be_exported(none, gap);
    assert(none + "export"@ + gap + ARL_KEY@ =~= "export "@ + "DEEMIX_ARL="@);
    if arl_line(contents) is None {
        let after = env_with_arl(contents, arl);
        let line = "DEEMIX_ARL="@ + arl + "\n"@;
        assert(after =~= ended(contents) + line);
        assert(after.skip(after.len() - line.len()) =~= line);
    }
}

/// Of several links in a text the one to Spotify counts first, then a short one, then one to Deezer.
pub proof fn links_count_in_their_order(text: Seq<char>)
    ensures
        link_in(text) == Link::Spotify <==> mentions_spotify_track(text) || mentions_spotify_album(
            text,
        ),
        mentions_deezer_short(text) && link_in(text) != Link::Spotify ==> link_in(text)
            == Link::DeezerShort,
        link_in(text) == Link::Deezer ==> mentions_deezer(text) && deezer_kind(text) is Some,
        link_in(text) == Link::Nothing ==> deezer_kind(text) is None,
{
}

} // verus!
