//! A conversation, turn by turn: what the bot does at once, and the outside work whose outcome
//! it waits for before it goes on.
use vstd::prelude::*;

use crate::deemix::{results, Found, FoundV, QueueStatus, SearchKind};
use crate::http::given;
use crate::keyboard::{button_rows, result_buttons, result_rows, rows, Button, ButtonV};
use crate::links::{deezer_kind, env_with_arl, find_deezer_kind, is_spotify_track};
use crate::links::{mentions_spotify_track, put_arl};
use crate::spotify::{known, SpotifyMeta, SpotifyMetaV};
use crate::text::{capitalize, capitalized, cat2, cat3, cat5, contained_parts_stay, contains};
use crate::text::{decimal, parts_are_contained, write_decimal};
use crate::voice::{recognized, RecognitionResult, RecognitionResultV};

verus! {

// ---- Acts ----------------------------------------------------------------------------------

/// What a chat is waiting for.
#[derive(Clone, Copy, Debug, PartialEq, Eq, Structural, Default)]
pub enum State {
    #[default]
    Idle,
    AwaitingArl,
    AwaitingSearch,
    AwaitingAlbum,
    AwaitingDl,
    AwaitingSpotify,
    AwaitingVoiceTranscribe,
    AwaitingVoiceRecognize,
}

/// Which message of the conversation an edit changes: the one that shows how things stand, or the
/// one with the results.
#[derive(Clone, Copy, Debug, PartialEq, Eq, Structural)]
pub enum Slot {
    Status,
    Results,
}

/// The buttons that come with a message.
#[derive(Debug, PartialEq)]
pub enum Keyboard {
    Bare,
    Reply(Vec<Vec<String>>),
    Inline(Vec<Vec<Button>>),
}

/// The buttons that come with a message.
pub ghost enum KeyboardV {
    Bare,
    Reply(Seq<Seq<Seq<char>>>),
    Inline(Seq<Seq<ButtonV>>),
}

impl View for Keyboard {
    type V = KeyboardV;

    open spec fn view(&self) -> KeyboardV {
        match self {
            Keyboard::Bare => KeyboardV::Bare,
            Keyboard::Reply(list) => KeyboardV::Reply(rows(list@)),
            Keyboard::Inline(list) => KeyboardV::Inline(button_rows(list@)),
        }
    }
}

/// One thing that the bot does.
#[derive(Debug, PartialEq)]
pub enum Act {
    /// Writes the users to their file.
    SaveUsers,
    /// The chat now waits for something.
    SetState(State),
    /// The chat no longer waits for anything.
    ExitDialogue,
    /// Sends a message, which takes the slot.
    Send { slot: Slot, text: String, keyboard: Keyboard },
    /// Changes the message in the slot.
    Edit { slot: Slot, text: String, keyboard: Keyboard },
    /// After so many seconds: where the chat still waits for the same thing, it stops waiting and
    /// is told so.
    Expire { state: State, seconds: u64, notice: String },
}

/// One thing that the bot does.
pub ghost enum ActV {
    SaveUsers,
    SetState(State),
    ExitDialogue,
    Send { slot: Slot, text: Seq<char>, keyboard: KeyboardV },
    Edit { slot: Slot, text: Seq<char>, keyboard: KeyboardV },
    Expire { state: State, seconds: u64, notice: Seq<char> },
}

impl View for Act {
    type V = ActV;

    open spec fn view(&self) -> ActV {
        match self {
            Act::SaveUsers => ActV::SaveUsers,
            Act::SetState(state) => ActV::SetState(*state),
            Act::ExitDialogue => ActV::ExitDialogue,
            Act::Send { slot, text, keyboard } => ActV::Send {
                slot: *slot,
                text: text@,
                keyboard: keyboard@,
            },
            Act::Edit { slot, text, keyboard } => ActV::Edit {
                slot: *slot,
                text: text@,
                keyboard: keyboard@,
            },
            Act::Expire { state, seconds, notice } => ActV::Expire {
                state: *state,
                seconds: *seconds,
                notice: notice@,
            },
        }
    }
}

/// A message without buttons.
pub open spec fn says(text: Seq<char>) -> ActV {
    ActV::Send { slot: Slot::Status, text, keyboard: KeyboardV::Bare }
}

/// A changed message without buttons.
pub open spec fn shows(slot: Slot, text: Seq<char>) -> ActV {
    ActV::Edit { slot, text, keyboard: KeyboardV::Bare }
}

/// Sends a message without buttons.
pub fn say(text: String) -> (r: Act)
    ensures
        r@ == says(text@),
{
    Act::Send { slot: Slot::Status, text, keyboard: Keyboard::Bare }
}

fn show(slot: Slot, text: String) -> (r: Act)
    ensures
        r@ == shows(slot, text@),
{
    Act::Edit { slot, text, keyboard: Keyboard::Bare }
}

// ---- Tasks ---------------------------------------------------------------------------------

/// What is done with the results of a search.
#[derive(Debug, PartialEq)]
pub enum Wish<S = String> {
    /// They are offered as buttons, each with the icon, below the heading.
    Offer { icon: SearchKind, heading: S },
    /// The first of them is queued.
    QueueFirst,
}

/// A search.
#[derive(Debug, PartialEq)]
pub struct SearchTask<S = String> {
    pub query: S,
    pub kind: SearchKind,
    /// The message that shows what came of it.
    pub slot: Slot,
    /// What is said where nothing is found.
    pub nothing: S,
    /// What is done where something is found.
    pub wish: Wish<S>,
}

/// A link that is queued.
#[derive(Debug, PartialEq)]
pub struct QueueTask<S = String> {
    pub url: S,
    /// What is said once it is queued.
    pub done: S,
    /// What is said before the reason why it is not.
    pub failed: S,
}

/// A Spotify link that is looked up.
#[derive(Debug, PartialEq)]
pub struct SpotifyTask<S = String> {
    pub url: S,
    pub kind: SearchKind,
}

/// A short link that is followed.
#[derive(Debug, PartialEq)]
pub struct ShortLinkTask<S = String> {
    pub url: S,
}

/// A new ARL that is tried.
#[derive(Debug, PartialEq)]
pub struct LoginTask<S = String> {
    pub arl: S,
}

/// The environment file is read, to put the new ARL into it.
#[derive(Debug, PartialEq)]
pub struct ReadEnvTask<S = String> {
    pub arl: S,
}

/// The environment file is written.
#[derive(Debug, PartialEq)]
pub struct WriteEnvTask<S = String> {
    pub contents: S,
}

/// What is done with a voice note.
#[derive(Clone, Copy, Debug, PartialEq, Eq, Structural)]
pub enum Purpose {
    Transcribe,
    Recognize,
}

/// Where a voice note came from: it was asked for, or a button under it was pressed.
#[derive(Clone, Copy, Debug, PartialEq, Eq, Structural)]
pub enum Origin {
    Dialogue,
    Callback,
}

/// A voice note that is downloaded.
#[derive(Debug, PartialEq)]
pub struct FetchTask<S = String> {
    pub file_id: S,
    pub purpose: Purpose,
    pub origin: Origin,
}

/// Why a voice note could not be had.
#[derive(Debug, PartialEq)]
pub enum FetchError<S = String> {
    Download(S),
    Read(S),
}

/// The downloaded voice note is transcribed.
#[derive(Debug, PartialEq)]
pub struct TranscribeTask {
    pub origin: Origin,
}

/// The song in the downloaded voice note is recognized.
#[derive(Debug, PartialEq)]
pub struct RecognizeTask {}

/// Odesli is asked for a recognized song.
#[derive(Debug, PartialEq)]
pub struct OdesliTask<S = String> {
    pub song_link: S,
    pub title: S,
    pub artist: S,
    pub spotify_url: Option<S>,
}

/// Spotify is asked for the proper title of a recognized song.
#[derive(Debug, PartialEq)]
pub struct MetaTask<S = String> {
    pub url: S,
    pub title: S,
    pub artist: S,
}

/// The queue is asked for.
#[derive(Debug, PartialEq)]
pub struct StatusTask {
    /// The queue was asked for by its button, whose answer is shorter than the command's.
    pub by_button: bool,
}

/// The outside work that a conversation waits for.
#[derive(Debug, PartialEq)]
pub enum Task<S = String> {
    Done,
    /// The conversation breaks off with an error.
    Fail(S),
    Search(SearchTask<S>),
    Queue(QueueTask<S>),
    Spotify(SpotifyTask<S>),
    ShortLink(ShortLinkTask<S>),
    Login(LoginTask<S>),
    ReadEnv(ReadEnvTask<S>),
    WriteEnv(WriteEnvTask<S>),
    Fetch(FetchTask<S>),
    Transcribe(TranscribeTask),
    Recognize(RecognizeTask),
    Odesli(OdesliTask<S>),
    Meta(MetaTask<S>),
    Status(StatusTask),
}

/// The outside work that a conversation waits for.
pub type TaskV = Task<Seq<char>>;

impl View for Wish {
    type V = Wish<Seq<char>>;

    open spec fn view(&self) -> Wish<Seq<char>> {
        match self {
            Wish::Offer { icon, heading } => Wish::Offer { icon: *icon, heading: heading@ },
            Wish::QueueFirst => Wish::QueueFirst,
        }
    }
}

impl View for SearchTask {
    type V = SearchTask<Seq<char>>;

    open spec fn view(&self) -> SearchTask<Seq<char>> {
        SearchTask {
            query: self.query@,
            kind: self.kind,
            slot: self.slot,
            nothing: self.nothing@,
            wish: self.wish@,
        }
    }
}

impl View for QueueTask {
    type V = QueueTask<Seq<char>>;

    open spec fn view(&self) -> QueueTask<Seq<char>> {
        QueueTask { url: self.url@, done: self.done@, failed: self.failed@ }
    }
}

impl View for SpotifyTask {
    type V = SpotifyTask<Seq<char>>;

    open spec fn view(&self) -> SpotifyTask<Seq<char>> {
        SpotifyTask { url: self.url@, kind: self.kind }
    }
}

impl View for ShortLinkTask {
    type V = ShortLinkTask<Seq<char>>;

    open spec fn view(&self) -> ShortLinkTask<Seq<char>> {
        ShortLinkTask { url: self.url@ }
    }
}

impl View for LoginTask {
    type V = LoginTask<Seq<char>>;

    open spec fn view(&self) -> LoginTask<Seq<char>> {
        LoginTask { arl: self.arl@ }
    }
}

impl View for ReadEnvTask {
    type V = ReadEnvTask<Seq<char>>;

    open spec fn view(&self) -> ReadEnvTask<Seq<char>> {
        ReadEnvTask { arl: self.arl@ }
    }
}

impl View for WriteEnvTask {
    type V = WriteEnvTask<Seq<char>>;

    open spec fn view(&self) -> WriteEnvTask<Seq<char>> {
        WriteEnvTask { contents: self.contents@ }
    }
}

impl View for FetchTask {
    type V = FetchTask<Seq<char>>;

    open spec fn view(&self) -> FetchTask<Seq<char>> {
        FetchTask { file_id: self.file_id@, purpose: self.purpose, origin: self.origin }
    }
}

impl View for FetchError {
    type V = FetchError<Seq<char>>;

    open spec fn view(&self) -> FetchError<Seq<char>> {
        match self {
            FetchError::Download(e) => FetchError::Download(e@),
            FetchError::Read(e) => FetchError::Read(e@),
        }
    }
}

impl View for OdesliTask {
    type V = OdesliTask<Seq<char>>;

    open spec fn view(&self) -> OdesliTask<Seq<char>> {
        OdesliTask {
            song_link: self.song_link@,
            title: self.title@,
            artist: self.artist@,
            spotify_url: given(self.spotify_url),
        }
    }
}

impl View for MetaTask {
    type V = MetaTask<Seq<char>>;

    open spec fn view(&self) -> MetaTask<Seq<char>> {
        MetaTask { url: self.url@, title: self.title@, artist: self.artist@ }
    }
}

impl View for Task {
    type V = TaskV;

    open spec fn view(&self) -> TaskV {
        match self {
            Task::Done => Task::Done,
            Task::Fail(e) => Task::Fail(e@),
            Task::Search(t) => Task::Search(t@),
            Task::Queue(t) => Task::Queue(t@),
            Task::Spotify(t) => Task::Spotify(t@),
            Task::ShortLink(t) => Task::ShortLink(t@),
            Task::Login(t) => Task::Login(t@),
            Task::ReadEnv(t) => Task::ReadEnv(t@),
            Task::WriteEnv(t) => Task::WriteEnv(t@),
            Task::Fetch(t) => Task::Fetch(t@),
            Task::Transcribe(t) => Task::Transcribe(*t),
            Task::Recognize(t) => Task::Recognize(*t),
            Task::Odesli(t) => Task::Odesli(t@),
            Task::Meta(t) => Task::Meta(t@),
            Task::Status(t) => Task::Status(*t),
        }
    }
}

// ---- Turns ---------------------------------------------------------------------------------

/// One turn of the bot: what it does at once, in order, and what it waits for then.
#[derive(Debug, PartialEq)]
pub struct Turn {
    pub acts: Vec<Act>,
    pub task: Task,
}

/// One turn of the bot.
pub ghost struct TurnV {
    pub acts: Seq<ActV>,
    pub task: TaskV,
}

/// What each act of a list does.
pub open spec fn acts_of(list: Seq<Act>) -> Seq<ActV> {
    list.map_values(|a: Act| a@)
}

impl View for Turn {
    type V = TurnV;

    open spec fn view(&self) -> TurnV {
        TurnV { acts: acts_of(self.acts@), task: self.task@ }
    }
}

/// A turn with one act.
pub open spec fn turn_of(act: ActV, task: TaskV) -> TurnV {
    TurnV { acts: seq![act], task }
}

/// A turn with an act before its others.
pub open spec fn preceded(act: ActV, turn: TurnV) -> TurnV {
    TurnV { acts: seq![act] + turn.acts, task: turn.task }
}

/// A turn in which nothing is done.
pub open spec fn quiet(task: TaskV) -> TurnV {
    TurnV { acts: Seq::empty(), task }
}

/// Makes a turn with one act.
pub fn turn(act: Act, task: Task) -> (r: Turn)
    ensures
        r@ == turn_of(act@, task@),
{
    let acts: Vec<Act> = vec![act];
    assert(acts_of(acts@) =~= seq![act@]);
    Turn { acts, task }
}

/// Makes a turn in which nothing is done.
pub fn silent(task: Task) -> (r: Turn)
    ensures
        r@ == quiet(task@),
{
    let acts: Vec<Act> = Vec::new();
    assert(acts_of(acts@) =~= Seq::empty());
    Turn { acts, task }
}

/// Puts an act before the others of a turn.
pub fn precede(act: Act, turn: Turn) -> (r: Turn)
    ensures
        r@ == preceded(act@, turn@),
{
    let mut acts: Vec<Act> = vec![act];
    let mut rest = turn.acts;
    let ghost more = rest@;
    acts.append(&mut rest);
    assert(acts_of(acts@) =~= seq![act@] + acts_of(more));
    Turn { acts, task: turn.task }
}

// ---- Searching -----------------------------------------------------------------------------

/// The icon of a kind.
pub open spec fn icon_of(kind: SearchKind) -> Seq<char> {
    match kind {
        SearchKind::Track => "🎵"@,
        SearchKind::Album => "💿"@,
    }
}

/// What a search has given.
pub open spec fn search_given(r: Result<Vec<Found>, String>) -> Result<Seq<FoundV>, Seq<char>> {
    match r {
        Ok(list) => Ok(results(list@)),
        Err(e) => Err(e@),
    }
}

/// A result is queued under its title and artist.
pub open spec fn found_queue(slot: Slot, f: FoundV) -> TurnV {
    turn_of(
        shows(slot, "⏳ Queuing "@ + f.title + " — "@ + f.artist + "..."@),
        song_queue(f.link, f.title, f.artist),
    )
}

/// What comes of a search: its results as buttons or its first result queued, as wished, or what
/// went wrong.
pub open spec fn search_turn(
    t: SearchTask<Seq<char>>,
    r: Result<Seq<FoundV>, Seq<char>>,
) -> TurnV {
    match r {
        Ok(list) => if list.len() == 0 {
            turn_of(shows(t.slot, t.nothing), Task::Done)
        } else {
            match t.wish {
                Wish::Offer { icon, heading } => turn_of(
                    ActV::Edit {
                        slot: t.slot,
                        text: heading,
                        keyboard: KeyboardV::Inline(result_rows(icon_of(icon), list)),
                    },
                    Task::Done,
                ),
                Wish::QueueFirst => found_queue(t.slot, list[0]),
            }
        },
        Err(e) => turn_of(shows(t.slot, "❌ Search failed: "@ + e), Task::Done),
    }
}

impl SearchTask {
    /// Goes on once the results of a search are there.
    pub fn finish(self, r: Result<Vec<Found>, String>) -> (turn: Turn)
        ensures
            turn@ == search_turn(self@, search_given(r)),
    {
        match r {
            Ok(list) => if list.len() == 0 {
                turn(show(self.slot, self.nothing), Task::Done)
            } else {
                match self.wish {
                    Wish::Offer { icon, heading } => {
                        let icon: &str = match icon {
                            SearchKind::Track => "🎵",
                            SearchKind::Album => "💿",
                        };
                        let buttons = result_buttons(icon, &list);
                        let act = Act::Edit {
                            slot: self.slot,
                            text: heading,
                            keyboard: Keyboard::Inline(buttons),
                        };
                        turn(act, Task::Done)
                    },
                    Wish::QueueFirst => {
                        let first = &list[0];
                        assert(results(list@)[0] == first@);
                        let (title, artist) = (first.title.as_str(), first.artist.as_str());
                        let text = cat5("⏳ Queuing ", title, " — ", artist, "...");
                        turn(show(self.slot, text), queue_song(first.link.clone(), title, artist))
                    },
                }
            },
            Err(e) => turn(show(self.slot, cat2("❌ Search failed: ", e.as_str())), Task::Done),
        }
    }
}

/// A search by a text.
pub open spec fn text_search(query: Seq<char>, kind: SearchKind) -> TurnV {
    turn_of(
        says("🔍 Searching for "@ + query + "..."@),
        Task::Search(
            SearchTask {
                query,
                kind,
                slot: Slot::Status,
                nothing: "😕 No results found."@,
                wish: Wish::Offer { icon: kind, heading: "Results for "@ + query + ":"@ },
            },
        ),
    )
}

/// Begins a search by a text.
pub fn do_search(query: &str, kind: SearchKind) -> (r: Turn)
    ensures
        r@ == text_search(query@, kind),
{
    let task = SearchTask {
        query: query.to_owned(),
        kind,
        slot: Slot::Status,
        nothing: "😕 No results found.".to_owned(),
        wish: Wish::Offer { icon: kind, heading: cat3("Results for ", query, ":") },
    };
    turn(say(cat3("🔍 Searching for ", query, "...")), Task::Search(task))
}

// ---- Queuing -------------------------------------------------------------------------------

/// The end of an attempt to queue.
pub open spec fn queue_turn(t: QueueTask<Seq<char>>, r: Result<(), Seq<char>>) -> TurnV {
    match r {
        Ok(()) => turn_of(shows(Slot::Status, t.done), Task::Done),
        Err(e) => turn_of(shows(Slot::Status, t.failed + e), Task::Done),
    }
}

impl QueueTask {
    /// Ends an attempt to queue.
    pub fn finish(self, r: Result<(), String>) -> (turn: Turn)
        ensures
            turn@ == queue_turn(self@, crate::deemix::outcome(r)),
    {
        match r {
            Ok(()) => turn(show(Slot::Status, self.done), Task::Done),
            Err(e) => turn(
                show(Slot::Status, cat2(self.failed.as_str(), e.as_str())),
                Task::Done,
            ),
        }
    }
}

/// A Deezer link is queued; anything else is refused.
pub open spec fn link_turn(url: Seq<char>) -> TurnV {
    match deezer_kind(url) {
        None => turn_of(says("❌ That doesn't look like a valid Deezer URL."@), Task::Done),
        Some(kind) => turn_of(
            says("⏳ Queuing "@ + kind + "..."@),
            Task::Queue(
                QueueTask {
                    url,
                    done: "✅ "@ + capitalized(kind) + " added to queue!"@,
                    failed: "❌ Failed to queue: "@,
                },
            ),
        ),
    }
}

/// Begins to queue a Deezer link.
pub fn queue_url(url: &str) -> (r: Turn)
    ensures
        r@ == link_turn(url@),
{
    match find_deezer_kind(url) {
        None => turn(
            say("❌ That doesn't look like a valid Deezer URL.".to_owned()),
            Task::Done,
        ),
        Some(kind) => {
            let name = capitalize(kind.as_str());
            let task = QueueTask {
                url: url.to_owned(),
                done: cat3("✅ ", name.as_str(), " added to queue!"),
                failed: "❌ Failed to queue: ".to_owned(),
            };
            turn(say(cat3("⏳ Queuing ", kind.as_str(), "...")), Task::Queue(task))
        },
    }
}

/// A short link is followed, and queued where it leads to a Deezer link.
pub open spec fn short_link_turn(target: Option<Seq<char>>) -> TurnV {
    match target {
        Some(url) => link_turn(url),
        None => turn_of(says("❌ Could not resolve that link."@), Task::Done),
    }
}

impl ShortLinkTask {
    /// Goes on once a short link was followed.
    pub fn finish(self, target: Option<String>) -> (turn: Turn)
        ensures
            turn@ == short_link_turn(given(target)),
    {
        match target {
            Some(url) => queue_url(url.as_str()),
            None => turn(say("❌ Could not resolve that link.".to_owned()), Task::Done),
        }
    }
}

// ---- Spotify -------------------------------------------------------------------------------

/// A Spotify link is looked up.
pub open spec fn spotify_start(url: Seq<char>) -> TurnV {
    turn_of(
        says("🎵 Looking up Spotify link..."@),
        Task::Spotify(
            SpotifyTask {
                url,
                kind: if mentions_spotify_track(url) {
                    SearchKind::Track
                } else {
                    SearchKind::Album
                },
            },
        ),
    )
}

/// Begins to look up a Spotify link.
pub fn handle_spotify(url: &str) -> (r: Turn)
    ensures
        r@ == spotify_start(url@),
{
    let kind = if is_spotify_track(url) {
        SearchKind::Track
    } else {
        SearchKind::Album
    };
    turn(
        say("🎵 Looking up Spotify link...".to_owned()),
        Task::Spotify(SpotifyTask { url: url.to_owned(), kind }),
    )
}

/// What is known of a Spotify link is searched for on Deezer, to be queued.
pub open spec fn spotify_turn(t: SpotifyTask<Seq<char>>, meta: Option<SpotifyMetaV>) -> TurnV {
    match meta {
        Some(m) => turn_of(
            shows(Slot::Status, "🔍 Found "@ + m.label + "\nSearching on Deezer..."@),
            Task::Search(
                SearchTask {
                    query: m.query,
                    kind: t.kind,
                    slot: Slot::Status,
                    nothing: "😕 No results found on Deezer for: "@ + m.query,
                    wish: Wish::QueueFirst,
                },
            ),
        ),
        None => turn_of(
            shows(Slot::Status, "❌ Could not resolve Spotify link. Try /search instead."@),
            Task::Done,
        ),
    }
}

impl SpotifyTask {
    /// Goes on once a Spotify link was looked up.
    pub fn finish(self, meta: Option<SpotifyMeta>) -> (turn: Turn)
        ensures
            turn@ == spotify_turn(self@, known(meta)),
    {
        match meta {
            Some(m) => {
                let text = cat3("🔍 Found ", m.label.as_str(), "\nSearching on Deezer...");
                let task = SearchTask {
                    kind: self.kind,
                    slot: Slot::Status,
                    nothing: cat2("😕 No results found on Deezer for: ", m.query.as_str()),
                    wish: Wish::QueueFirst,
                    query: m.query,
                };
                turn(show(Slot::Status, text), Task::Search(task))
            },
            None => turn(
                show(
                    Slot::Status,
                    "❌ Could not resolve Spotify link. Try /search instead.".to_owned(),
                ),
                Task::Done,
            ),
        }
    }
}

// ---- A new ARL -----------------------------------------------------------------------------

/// A new ARL is tried.
pub open spec fn arl_start(arl: Seq<char>) -> TurnV {
    turn_of(says("🔄 Validating new ARL..."@), Task::Login(LoginTask { arl }))
}

/// Begins to try a new ARL.
pub fn handle_updatearl(arl: &str) -> (r: Turn)
    ensures
        r@ == arl_start(arl@),
{
    turn(
        say("🔄 Validating new ARL...".to_owned()),
        Task::Login(LoginTask { arl: arl.to_owned() }),
    )
}

/// An ARL that deemix accepts goes into the environment file.
pub open spec fn login_turn(t: LoginTask<Seq<char>>, r: Result<Seq<char>, Seq<char>>) -> TurnV {
    match r {
        Ok(_) => turn_of(
            shows(Slot::Status, "✅ Logged in!\n🔄 Updating .env file..."@),
            Task::ReadEnv(ReadEnvTask { arl: t.arl }),
        ),
        Err(e) => turn_of(shows(Slot::Status, "❌ ARL rejected by deemix: "@ + e), Task::Done),
    }
}

impl LoginTask {
    /// Goes on once deemix has said what it thinks of the ARL.
    pub fn finish(self, r: Result<String, String>) -> (turn: Turn)
        ensures
            turn@ == login_turn(self@, crate::http::told(r)),
    {
        match r {
            Ok(_) => turn(
                show(Slot::Status, "✅ Logged in!\n🔄 Updating .env file...".to_owned()),
                Task::ReadEnv(ReadEnvTask { arl: self.arl }),
            ),
            Err(e) => turn(
                show(Slot::Status, cat2("❌ ARL rejected by deemix: ", e.as_str())),
                Task::Done,
            ),
        }
    }
}

/// The contents of the environment file get the new ARL.
pub open spec fn read_env_turn(
    t: ReadEnvTask<Seq<char>>,
    r: Result<Seq<char>, Seq<char>>,
) -> TurnV {
    match r {
        Ok(contents) => quiet(
            Task::WriteEnv(WriteEnvTask { contents: env_with_arl(contents, t.arl) }),
        ),
        Err(e) => turn_of(
            shows(Slot::Status, "⚠️ Logged in but could not read .env: "@ + e),
            Task::Done,
        ),
    }
}

impl ReadEnvTask {
    /// Goes on once the environment file was read.
    pub fn finish(self, r: Result<String, String>) -> (turn: Turn)
        ensures
            turn@ == read_env_turn(self@, crate::http::told(r)),
    {
        match r {
            Ok(contents) => {
                let updated = put_arl(contents.as_str(), self.arl.as_str());
                silent(Task::WriteEnv(WriteEnvTask { contents: updated }))
            },
            Err(e) => turn(
                show(
                    Slot::Status,
                    cat2("⚠️ Logged in but could not read .env: ", e.as_str()),
                ),
                Task::Done,
            ),
        }
    }
}

/// The end of an update of the ARL.
pub open spec fn write_env_turn(r: Result<(), Seq<char>>) -> TurnV {
    match r {
        Ok(()) => turn_of(
            shows(
                Slot::Status,
                "✅ ARL updated and saved! Downloads will use the new ARL immediately."@,
            ),
            Task::Done,
        ),
        Err(e) => turn_of(
            shows(Slot::Status, "⚠️ Logged in but could not update .env: "@ + e),
            Task::Done,
        ),
    }
}

impl WriteEnvTask {
    /// Ends an update of the ARL.
    pub fn finish(self, r: Result<(), String>) -> (turn: Turn)
        ensures
            turn@ == write_env_turn(crate::deemix::outcome(r)),
    {
        match r {
            Ok(()) => turn(
                show(
                    Slot::Status,
                    "✅ ARL updated and saved! Downloads will use the new ARL immediately.".to_owned(),
                ),
                Task::Done,
            ),
            Err(e) => turn(
                show(
                    Slot::Status,
                    cat2("⚠️ Logged in but could not update .env: ", e.as_str()),
                ),
                Task::Done,
            ),
        }
    }
}

// ---- Voice notes ---------------------------------------------------------------------------

/// What is shown while a voice note is worked on.
pub open spec fn working_on(purpose: Purpose) -> Seq<char> {
    match purpose {
        Purpose::Transcribe => "🎤 Transcribing..."@,
        Purpose::Recognize => "🎵 Recognizing song..."@,
    }
}

/// Gives what is shown while a voice note is worked on.
pub fn working_text(purpose: Purpose) -> (r: &'static str)
    ensures
        r@ == working_on(purpose),
{
    match purpose {
        Purpose::Transcribe => "🎤 Transcribing...",
        Purpose::Recognize => "🎵 Recognizing song...",
    }
}

/// The work that follows the download of a voice note.
pub open spec fn voice_task(purpose: Purpose, origin: Origin) -> TaskV {
    match purpose {
        Purpose::Transcribe => Task::Transcribe(TranscribeTask { origin }),
        Purpose::Recognize => Task::Recognize(RecognizeTask {  }),
    }
}

/// Whether a voice note could be had.
pub open spec fn fetched(r: Result<(), FetchError>) -> Result<(), FetchError<Seq<char>>> {
    match r {
        Ok(()) => Ok(()),
        Err(e) => Err(e@),
    }
}

/// A downloaded voice note is worked on. A note that was asked for has said so already; where it
/// breaks off in the middle the conversation fails.
pub open spec fn fetch_turn(
    t: FetchTask<Seq<char>>,
    r: Result<(), FetchError<Seq<char>>>,
) -> TurnV {
    match r {
        Ok(()) => match t.origin {
            Origin::Dialogue => quiet(voice_task(t.purpose, t.origin)),
            Origin::Callback => turn_of(
                shows(Slot::Status, working_on(t.purpose)),
                voice_task(t.purpose, t.origin),
            ),
        },
        Err(FetchError::Download(e)) => turn_of(
            shows(Slot::Status, "❌ Failed to download audio: "@ + e),
            Task::Done,
        ),
        Err(FetchError::Read(e)) => match t.origin {
            Origin::Dialogue => quiet(Task::Fail(e)),
            Origin::Callback => turn_of(
                shows(Slot::Status, "❌ Failed to read audio: "@ + e),
                Task::Done,
            ),
        },
    }
}

impl FetchTask {
    /// Goes on once a voice note was downloaded.
    pub fn finish(self, r: Result<(), FetchError>) -> (turn: Turn)
        ensures
            turn@ == fetch_turn(self@, fetched(r)),
    {
        match r {
            Ok(()) => {
                let task = match self.purpose {
                    Purpose::Transcribe => Task::Transcribe(
                        TranscribeTask { origin: self.origin },
                    ),
                    Purpose::Recognize => Task::Recognize(RecognizeTask {  }),
                };
                match self.origin {
                    Origin::Dialogue => silent(task),
                    Origin::Callback => turn(
                        show(Slot::Status, working_text(self.purpose).to_owned()),
                        task,
                    ),
                }
            },
            Err(FetchError::Download(e)) => turn(
                show(Slot::Status, cat2("❌ Failed to download audio: ", e.as_str())),
                Task::Done,
            ),
            Err(FetchError::Read(e)) => match self.origin {
                Origin::Dialogue => silent(Task::Fail(e)),
                Origin::Callback => turn(
                    show(Slot::Status, cat2("❌ Failed to read audio: ", e.as_str())),
                    Task::Done,
                ),
            },
        }
    }
}

/// What was heard is searched for.
pub open spec fn transcribe_turn(t: TranscribeTask, r: Result<Seq<char>, Seq<char>>) -> TurnV {
    match r {
        Ok(text) => if text.len() == 0 {
            turn_of(
                shows(
                    Slot::Status,
                    "😕 Could not transcribe anything. Try speaking more clearly."@,
                ),
                Task::Done,
            )
        } else {
            TurnV {
                acts: seq![
                    shows(Slot::Status, "🔍 I heard: "@ + text + "\nSearching..."@),
                    ActV::Send {
                        slot: Slot::Results,
                        text: "Results for: "@ + text,
                        keyboard: KeyboardV::Bare,
                    },
                ],
                task: Task::Search(
                    SearchTask {
                        query: text,
                        kind: SearchKind::Track,
                        slot: Slot::Results,
                        nothing: "😕 No results for: "@ + text,
                        wish: Wish::Offer {
                            icon: SearchKind::Track,
                            heading: match t.origin {
                                Origin::Dialogue => "Results for "@ + text + ":"@,
                                Origin::Callback => "Results for '"@ + text + "':"@,
                            },
                        },
                    },
                ),
            }
        },
        Err(e) => turn_of(shows(Slot::Status, "❌ Transcription failed: "@ + e), Task::Done),
    }
}

impl TranscribeTask {
    /// Goes on once a voice note was transcribed.
    pub fn finish(self, r: Result<String, String>) -> (turn: Turn)
        ensures
            turn@ == transcribe_turn(self, crate::http::told(r)),
    {
        match r {
            Ok(text) => {
                if text.as_str().is_empty() {
                    return turn(
                        show(
                            Slot::Status,
                            "😕 Could not transcribe anything. Try speaking more clearly.".to_owned(),
                        ),
                        Task::Done,
                    );
                }
                let heard = cat3("🔍 I heard: ", text.as_str(), "\nSearching...");
                let heading = match self.origin {
                    Origin::Dialogue => cat3("Results for ", text.as_str(), ":"),
                    Origin::Callback => cat3("Results for '", text.as_str(), "':"),
                };
                let announce = Act::Send {
                    slot: Slot::Results,
                    text: cat2("Results for: ", text.as_str()),
                    keyboard: Keyboard::Bare,
                };
                let task = SearchTask {
                    kind: SearchKind::Track,
                    slot: Slot::Results,
                    nothing: cat2("😕 No results for: ", text.as_str()),
                    wish: Wish::Offer { icon: SearchKind::Track, heading },
                    query: text,
                };
                let r = precede(show(Slot::Status, heard), turn(announce, Task::Search(task)));
                assert(r@.acts =~= transcribe_turn(self, Ok(text@)).acts);
                r
            },
            Err(e) => turn(
                show(Slot::Status, cat2("❌ Transcription failed: ", e.as_str())),
                Task::Done,
            ),
        }
    }
}

// ---- Recognized songs ----------------------------------------------------------------------

/// A Deezer link of a recognized song is queued.
pub open spec fn song_queue(url: Seq<char>, title: Seq<char>, artist: Seq<char>) -> TaskV {
    Task::Queue(
        QueueTask {
            url,
            done: "✅ "@ + title + " — "@ + artist + " added to queue!"@,
            failed: "❌ Failed to queue: "@,
        },
    )
}

/// A recognized song is searched for by a text.
pub open spec fn song_search(query: Seq<char>, title: Seq<char>, artist: Seq<char>) -> TurnV {
    turn_of(
        ActV::Send {
            slot: Slot::Results,
            text: "Searching on Deezer..."@,
            keyboard: KeyboardV::Bare,
        },
        Task::Search(
            SearchTask {
                query,
                kind: SearchKind::Track,
                slot: Slot::Results,
                nothing: "😕 No results on Deezer for: "@ + query,
                wish: Wish::Offer {
                    icon: SearchKind::Track,
                    heading: "Results for "@ + title + " — "@ + artist + ":"@,
                },
            },
        ),
    )
}

/// A recognized song without a Deezer link: Spotify may know its proper title, else its title and
/// artist are searched for.
pub open spec fn song_without_link(
    title: Seq<char>,
    artist: Seq<char>,
    spotify_url: Option<Seq<char>>,
) -> TurnV {
    match spotify_url {
        Some(url) => quiet(Task::Meta(MetaTask { url, title, artist })),
        None => song_search(title + " "@ + artist, title, artist),
    }
}

fn queue_song(url: String, title: &str, artist: &str) -> (r: Task)
    ensures
        r@ == song_queue(url@, title@, artist@),
{
    Task::Queue(
        QueueTask {
            url,
            done: cat5("✅ ", title, " — ", artist, " added to queue!"),
            failed: "❌ Failed to queue: ".to_owned(),
        },
    )
}

fn search_song(query: String, title: &str, artist: &str) -> (r: Turn)
    ensures
        r@ == song_search(query@, title@, artist@),
{
    let announce = Act::Send {
        slot: Slot::Results,
        text: "Searching on Deezer...".to_owned(),
        keyboard: Keyboard::Bare,
    };
    let task = SearchTask {
        kind: SearchKind::Track,
        slot: Slot::Results,
        nothing: cat2("😕 No results on Deezer for: ", query.as_str()),
        wish: Wish::Offer {
            icon: SearchKind::Track,
            heading: cat5("Results for ", title, " — ", artist, ":"),
        },
        query,
    };
    turn(announce, Task::Search(task))
}

fn without_link(title: String, artist: String, spotify_url: Option<String>) -> (r: Turn)
    ensures
        r@ == song_without_link(title@, artist@, given(spotify_url)),
{
    match spotify_url {
        Some(url) => silent(Task::Meta(MetaTask { url, title, artist })),
        None => {
            let query = cat3(title.as_str(), " ", artist.as_str());
            search_song(query, title.as_str(), artist.as_str())
        },
    }
}

/// What is done with a recognized song: its Deezer link is queued; without one, Odesli is asked;
/// without a link to ask about, Spotify or a search has to do.
pub open spec fn song_turn(rec: RecognitionResultV) -> TurnV {
    match rec.deezer_url {
        Some(url) => quiet(song_queue(url, rec.title, rec.artist)),
        None => match rec.song_link {
            Some(song_link) => quiet(
                Task::Odesli(
                    OdesliTask {
                        song_link,
                        title: rec.title,
                        artist: rec.artist,
                        spotify_url: rec.spotify_url,
                    },
                ),
            ),
            None => song_without_link(rec.title, rec.artist, rec.spotify_url),
        },
    }
}

/// A recognized song is shown, and then queued or looked for.
pub open spec fn recognize_turn(r: Result<RecognitionResultV, Seq<char>>) -> TurnV {
    match r {
        Ok(rec) => preceded(
            shows(
                Slot::Status,
                "🎵 Found: "@ + rec.title + " — "@ + rec.artist + "\nQueuing..."@,
            ),
            song_turn(rec),
        ),
        Err(e) => turn_of(shows(Slot::Status, "❌ Recognition failed: "@ + e), Task::Done),
    }
}

impl RecognizeTask {
    /// Goes on once AudD has listened.
    pub fn finish(self, r: Result<RecognitionResult, String>) -> (turn: Turn)
        ensures
            turn@ == recognize_turn(recognized(r)),
    {
        match r {
            Ok(rec) => {
                let text = cat5(
                    "🎵 Found: ",
                    rec.title.as_str(),
                    " — ",
                    rec.artist.as_str(),
                    "\nQueuing...",
                );
                let rest = match rec.deezer_url {
                    Some(url) => silent(queue_song(url, rec.title.as_str(), rec.artist.as_str())),
                    None => match rec.song_link {
                        Some(song_link) => silent(
                            Task::Odesli(
                                OdesliTask {
                                    song_link,
                                    title: rec.title,
                                    artist: rec.artist,
                                    spotify_url: rec.spotify_url,
                                },
                            ),
                        ),
                        None => without_link(rec.title, rec.artist, rec.spotify_url),
                    },
                };
                precede(show(Slot::Status, text), rest)
            },
            Err(e) => turn(
                show(Slot::Status, cat2("❌ Recognition failed: ", e.as_str())),
                Task::Done,
            ),
        }
    }
}

/// The Deezer link that Odesli gives is queued.
pub open spec fn odesli_turn(t: OdesliTask<Seq<char>>, link: Option<Seq<char>>) -> TurnV {
    match link {
        Some(url) => quiet(song_queue(url, t.title, t.artist)),
        None => song_without_link(t.title, t.artist, t.spotify_url),
    }
}

impl OdesliTask {
    /// Goes on once Odesli has answered.
    pub fn finish(self, link: Option<String>) -> (turn: Turn)
        ensures
            turn@ == odesli_turn(self@, given(link)),
    {
        match link {
            Some(url) => silent(queue_song(url, self.title.as_str(), self.artist.as_str())),
            None => without_link(self.title, self.artist, self.spotify_url),
        }
    }
}

/// What Spotify knows of the song is searched for, else its title and artist.
pub open spec fn meta_turn(t: MetaTask<Seq<char>>, meta: Option<SpotifyMetaV>) -> TurnV {
    match meta {
        Some(m) => song_search(m.query, t.title, t.artist),
        None => song_search(t.title + " "@ + t.artist, t.title, t.artist),
    }
}

impl MetaTask {
    /// Goes on once Spotify has answered.
    pub fn finish(self, meta: Option<SpotifyMeta>) -> (turn: Turn)
        ensures
            turn@ == meta_turn(self@, known(meta)),
    {
        match meta {
            Some(m) => search_song(m.query, self.title.as_str(), self.artist.as_str()),
            None => {
                let query = cat3(self.title.as_str(), " ", self.artist.as_str());
                search_song(query, self.title.as_str(), self.artist.as_str())
            },
        }
    }
}

// ---- The queue -----------------------------------------------------------------------------

/// A line of the status, where there is something to count.
pub open spec fn count_line(label: Seq<char>, n: nat, end: Seq<char>) -> Seq<char> {
    if n > 0 {
        label + decimal(n) + end
    } else {
        Seq::empty()
    }
}

/// What the bot says of the queue.
pub open spec fn status_text(q: QueueStatus, by_button: bool) -> Seq<char> {
    "✅ Deemix is reachable\n"@ + count_line(
        "⬇️ Downloading: "@,
        q.downloading as nat,
        "\n"@,
    ) + count_line("⏳ Pending: "@, q.pending as nat, "\n"@) + count_line(
        if by_button {
            "✅ Completed: "@
        } else {
            "✅ Completed (in queue): "@
        },
        q.done as nat,
        ""@,
    ) + (if q.downloading == 0 && q.pending == 0 && q.done == 0 {
        "📭 Queue is empty"@
    } else {
        Seq::empty()
    })
}

/// The state of the queue, or why there is none.
pub open spec fn queue_given(r: Result<QueueStatus, String>) -> Result<QueueStatus, Seq<char>> {
    match r {
        Ok(q) => Ok(q),
        Err(e) => Err(e@),
    }
}

/// The state of the queue is told.
pub open spec fn status_turn(t: StatusTask, r: Result<QueueStatus, Seq<char>>) -> TurnV {
    match r {
        Ok(q) => turn_of(says(status_text(q, t.by_button)), Task::Done),
        Err(e) => turn_of(says("❌ Can't reach deemix: "@ + e), Task::Done),
    }
}

fn push_count(text: &mut String, label: &str, n: usize, end: &str)
    ensures
        final(text)@ == old(text)@ + count_line(label@, n as nat, end@),
{
    if n > 0 {
        let line = cat3(label, write_decimal(n as u64).as_str(), end);
        text.append(line.as_str());
    } else {
        assert(text@ =~= text@ + Seq::empty());
    }
}

impl StatusTask {
    /// Tells the state of the queue.
    pub fn finish(self, r: Result<QueueStatus, String>) -> (turn: Turn)
        ensures
            turn@ == status_turn(self, queue_given(r)),
    {
        match r {
            Ok(q) => {
                let mut text = "✅ Deemix is reachable\n".to_owned();
                push_count(&mut text, "⬇️ Downloading: ", q.downloading, "\n");
                push_count(&mut text, "⏳ Pending: ", q.pending, "\n");
                let label: &str = if self.by_button {
                    "✅ Completed: "
                } else {
                    "✅ Completed (in queue): "
                };
                push_count(&mut text, label, q.done, "");
                if q.downloading == 0 && q.pending == 0 && q.done == 0 {
                    text.append("📭 Queue is empty");
                }
                assert(text@ =~= status_text(q, self.by_button));
                turn(say(text), Task::Done)
            },
            Err(e) => turn(say(cat2("❌ Can't reach deemix: ", e.as_str())), Task::Done),
        }
    }
}

// ---- Laws ----------------------------------------------------------------------------------

/// How far a task is from the end of its conversation at most.
pub open spec fn steps_left(task: TaskV) -> nat {
    match task {
        Task::Done => 0,
        Task::Fail(_) => 0,
        Task::Search(t) => match t.wish {
            Wish::Offer { .. } => 1,
            Wish::QueueFirst => 2,
        },
        Task::Queue(_) => 1,
        Task::WriteEnv(_) => 1,
        Task::Status(_) => 1,
        Task::Spotify(_) => 3,
        Task::ShortLink(_) => 2,
        Task::ReadEnv(_) => 2,
        Task::Transcribe(_) => 2,
        Task::Meta(_) => 2,
        Task::Login(_) => 3,
        Task::Odesli(_) => 3,
        Task::Recognize(_) => 4,
        Task::Fetch(_) => 5,
    }
}

/// What comes of outside work.
pub ghost enum Outcome {
    Searched(Result<Seq<FoundV>, Seq<char>>),
    Queued(Result<(), Seq<char>>),
    Followed(Option<Seq<char>>),
    LookedUp(Option<SpotifyMetaV>),
    LoggedIn(Result<Seq<char>, Seq<char>>),
    EnvRead(Result<Seq<char>, Seq<char>>),
    EnvWritten(Result<(), Seq<char>>),
    Fetched(Result<(), FetchError<Seq<char>>>),
    Transcribed(Result<Seq<char>, Seq<char>>),
    Recognized(Result<RecognitionResultV, Seq<char>>),
    OdesliAnswered(Option<Seq<char>>),
    Counted(Result<QueueStatus, Seq<char>>),
}

/// The turn that follows a task once its outcome is there. (No turn, where the outcome is not one
/// of the task.)
pub open spec fn next_turn(task: TaskV, outcome: Outcome) -> Option<TurnV> {
    match (task, outcome) {
        (Task::Search(t), Outcome::Searched(r)) => Some(search_turn(t, r)),
        (Task::Queue(t), Outcome::Queued(r)) => Some(queue_turn(t, r)),
        (Task::ShortLink(_), Outcome::Followed(r)) => Some(short_link_turn(r)),
        (Task::Spotify(t), Outcome::LookedUp(r)) => Some(spotify_turn(t, r)),
        (Task::Login(t), Outcome::LoggedIn(r)) => Some(login_turn(t, r)),
        (Task::ReadEnv(t), Outcome::EnvRead(r)) => Some(read_env_turn(t, r)),
        (Task::WriteEnv(_), Outcome::EnvWritten(r)) => Some(write_env_turn(r)),
        (Task::Fetch(t), Outcome::Fetched(r)) => Some(fetch_turn(t, r)),
        (Task::Transcribe(t), Outcome::Transcribed(r)) => Some(transcribe_turn(t, r)),
        (Task::Recognize(_), Outcome::Recognized(r)) => Some(recognize_turn(r)),
        (Task::Odesli(t), Outcome::OdesliAnswered(r)) => Some(odesli_turn(t, r)),
        (Task::Meta(t), Outcome::LookedUp(r)) => Some(meta_turn(t, r)),
        (Task::Status(t), Outcome::Counted(r)) => Some(status_turn(t, r)),
        _ => None,
    }
}

/// Every conversation ends: whatever comes of the outside work, the next turn is nearer to the
/// end, so at most five pieces of outside work are waited for.
pub proof fn conversations_end(task: TaskV, outcome: Outcome)
    ensures
        steps_left(task) <= 5,
        next_turn(task, outcome) matches Some(turn) ==> steps_left(turn.task) < steps_left(task),
{
}

/// What becomes of a recognized song, with the answers of Odesli and Spotify where they are asked.
pub open spec fn song_path(
    rec: RecognitionResultV,
    odesli: Option<Seq<char>>,
    meta: Option<SpotifyMetaV>,
) -> TaskV {
    let first = song_turn(rec).task;
    let second = match first {
        Task::Odesli(t) => odesli_turn(t, odesli).task,
        other => other,
    };
    match second {
        Task::Meta(t) => meta_turn(t, meta).task,
        other => other,
    }
}

/// A recognized song is queued by its own Deezer link; else by the one that Odesli knows; else it
/// is searched for by what Spotify knows of it; else by its title and artist. In that order.
pub proof fn songs_are_queued_in_order_of_preference(
    rec: RecognitionResultV,
    odesli: Option<Seq<char>>,
    meta: Option<SpotifyMetaV>,
)
    ensures
        song_path(rec, odesli, meta) == (if rec.deezer_url is Some {
            song_queue(rec.deezer_url->0, rec.title, rec.artist)
        } else if rec.song_link is Some && odesli is Some {
            song_queue(odesli->0, rec.title, rec.artist)
        } else if rec.spotify_url is Some && meta is Some {
            song_search((meta->0).query, rec.title, rec.artist).task
        } else {
            song_search(rec.title + " "@ + rec.artist, rec.title, rec.artist).task
        }),
{
}

/// A Spotify link is looked up and queued: what is known of it is searched for, a track as a track
/// and an album as an album, and the first result is queued with no button to press. It is said
/// where nothing is known or nothing is found.
pub proof fn spotify_links_are_queued(
    url: Seq<char>,
    meta: SpotifyMetaV,
    list: Seq<FoundV>,
)
    requires
        list.len() > 0,
    ensures
        spotify_start(url).task matches Task::Spotify(lookup) && {
            &&& lookup.url == url
            &&& lookup.kind == if mentions_spotify_track(url) {
                SearchKind::Track
            } else {
                SearchKind::Album
            }
            &&& spotify_turn(lookup, None).task is Done
            &&& spotify_turn(lookup, Some(meta)).task matches Task::Search(search) && {
                &&& search.query == meta.query
                &&& search.kind == lookup.kind
                &&& search_turn(search, Ok(Seq::empty())).task is Done
                &&& search_turn(search, Ok(list)).task matches Task::Queue(queue) && {
                    &&& queue.url == list[0].link
                    &&& queue_turn(queue, Ok(())) == turn_of(
                        shows(
                            Slot::Status,
                            "✅ "@ + list[0].title + " — "@ + list[0].artist + " added to queue!"@,
                        ),
                        Task::Done,
                    )
                }
            }
        },
{
}

/// A Deezer link is queued as it stands.
pub proof fn deezer_links_are_queued(
    host: Seq<char>,
    lang: Seq<char>,
    kind: Seq<char>,
    number: Seq<char>,
)
    requires
        crate::links::is_deezer_host(host),
        crate::links::is_language(lang),
        crate::links::is_deezer_kind(kind),
        number.len() > 0,
        crate::text::all_digits(number),
    ensures
        link_turn(host + lang + kind + "/"@ + number).task == TaskV::Queue(
            QueueTask {
                url: host + lang + kind + "/"@ + number,
                done: "✅ "@ + capitalized(kind) + " added to queue!"@,
                failed: "❌ Failed to queue: "@,
            },
        ),
{
    crate::links::deezer_links_count(host, lang, kind, number);
}

/// An ARL that deemix accepts is what the environment file holds once it is written; one that it
/// rejects leaves the file alone.
pub proof fn accepted_arl_is_saved(
    arl: Seq<char>,
    user: Seq<char>,
    complaint: Seq<char>,
    contents: Seq<char>,
)
    requires
        !arl.contains('\n'),
    ensures
        ({
            let asked = arl_start(arl).task;
            &&& asked matches Task::Login(login)
            &&& login_turn(login, Ok(user)).task matches Task::ReadEnv(read)
            &&& read_env_turn(read, Ok(contents)).task matches Task::WriteEnv(write)
            &&& crate::links::arl_in(write.contents) == Some(arl)
            &&& login_turn(login, Err(complaint)).task is Done
        }),
{
    crate::links::arl_reads_back(contents, arl);
}

/// The text of a message that is sent or changed.
pub open spec fn text_in(act: ActV) -> Seq<char> {
    match act {
        ActV::Send { text, .. } => text,
        ActV::Edit { text, .. } => text,
        ActV::Expire { notice, .. } => notice,
        _ => Seq::empty(),
    }
}

proof fn ends_are_contained(a: Seq<char>, b: Seq<char>)
    ensures
        contains(a + b, b),
{
    let none = Seq::<char>::empty();
    parts_are_contained(a, b, none);
    assert(a + b + none =~= a + b);
}

/// What is heard in a voice note is searched for as a track, whichever way the note came: the query
/// is the text that was heard, the results are offered as tracks, and the user reads what was heard.
/// Where nothing was heard, nothing is searched for.
pub proof fn heard_songs_are_searched_for(t: TranscribeTask, text: Seq<char>)
    ensures
        ({
            let turn = transcribe_turn(t, Ok(text));
            &&& text.len() > 0 ==> {
                &&& turn.task matches Task::Search(search)
                &&& search.query == text
                &&& search.kind == SearchKind::Track
                &&& search.wish matches Wish::Offer { icon, heading }
                &&& icon == SearchKind::Track
                &&& contains(heading, text)
                &&& contains(search.nothing, text)
                &&& search.slot == Slot::Results
                &&& turn.acts.len() == 2
                &&& turn.acts[0] matches ActV::Edit { slot: Slot::Status, text: shown, .. } && contains(
                    shown,
                    text,
                )
                &&& turn.acts[1] matches ActV::Send { slot: Slot::Results, text: sent, .. } && contains(
                    sent,
                    text,
                )
            }
            &&& text.len() == 0 ==> turn.task is Done
        }),
{
    parts_are_contained("🔍 I heard: "@, text, "\nSearching..."@);
    ends_are_contained("Results for: "@, text);
    ends_are_contained("😕 No results for: "@, text);
    parts_are_contained("Results for "@, text, ":"@);
    parts_are_contained("Results for '"@, text, "':"@);
}

/// A voice note goes where it was meant to go: it is transcribed or its song is recognized, and it
/// is remembered how the note came. Where the note could not be had, neither is done.
pub proof fn voice_notes_go_where_they_were_meant_to(
    t: FetchTask<Seq<char>>,
    e: FetchError<Seq<char>>,
)
    ensures
        t.purpose == Purpose::Transcribe ==> (fetch_turn(t, Ok(())).task matches Task::Transcribe(
            next,
        ) && next.origin == t.origin),
        t.purpose == Purpose::Recognize ==> fetch_turn(t, Ok(())).task is Recognize,
        fetch_turn(t, Err(e)).task is Done || fetch_turn(t, Err(e)).task is Fail,
{
}

/// A recognized song ends in a link that is queued or in a search for a track: its own Deezer link
/// first, then the one that Odesli knows, then a search for what Spotify knows of it, then a search
/// for its title and artist.
pub proof fn recognized_songs_are_queued_or_searched_for(
    rec: RecognitionResultV,
    odesli: Option<Seq<char>>,
    meta: Option<SpotifyMetaV>,
)
    ensures
        rec.deezer_url matches Some(link) ==> (song_path(rec, odesli, meta) matches Task::Queue(q)
            && q.url == link),
        rec.deezer_url is None && rec.song_link is Some ==> (odesli matches Some(link) ==> (song_path(
            rec,
            odesli,
            meta,
        ) matches Task::Queue(q) && q.url == link)),
        rec.deezer_url is None && (rec.song_link is None || odesli is None) ==> {
            &&& song_path(rec, odesli, meta) matches Task::Search(s)
            &&& s.kind == SearchKind::Track
            &&& s.wish matches Wish::Offer { icon, heading } && icon == SearchKind::Track
            &&& s.slot == Slot::Results
            &&& rec.spotify_url is Some && meta is Some ==> s.query == (meta->0).query
            &&& rec.spotify_url is None || meta is None ==> s.query == rec.title + " "@ + rec.artist
        },
        rec.deezer_url is None ==> (rec.song_link matches Some(link) ==> (song_turn(
            rec,
        ).task matches Task::Odesli(o) && o.song_link == link && o.title == rec.title && o.artist
            == rec.artist)),
        rec.deezer_url is None && rec.song_link is None ==> (rec.spotify_url matches Some(link)
            ==> (song_turn(rec).task matches Task::Meta(m) && m.url == link)),
        recognize_turn(Ok(rec)).task == song_turn(rec).task,
        recognize_turn(Ok(rec)).acts.skip(1) == song_turn(rec).acts,
        contains(text_in(recognize_turn(Ok(rec)).acts[0]), rec.title),
        contains(text_in(recognize_turn(Ok(rec)).acts[0]), rec.artist),
{
    let turn = recognize_turn(Ok(rec));
    assert(turn.acts.skip(1) =~= song_turn(rec).acts);
    let a = "🎵 Found: "@ + rec.title;
    assert(turn.acts[0] == shows(
        Slot::Status,
        a + " — "@ + rec.artist + "\nQueuing..."@,
    ));
    ends_are_contained("🎵 Found: "@, rec.title);
    contained_parts_stay(a, " — "@, rec.title);
    contained_parts_stay(a + " — "@, rec.artist, rec.title);
    contained_parts_stay(a + " — "@ + rec.artist, "\nQueuing..."@, rec.title);
    parts_are_contained(a + " — "@, rec.artist, "\nQueuing..."@);
}

/// A text is searched for as it stands and as what it was given for, and the results are offered as
/// such.
pub proof fn texts_are_searched_for_as_they_stand(query: Seq<char>, kind: SearchKind)
    ensures
        ({
            let turn = text_search(query, kind);
            &&& turn.task matches Task::Search(search)
            &&& search.query == query
            &&& search.kind == kind
            &&& search.wish matches Wish::Offer { icon, heading }
            &&& icon == kind
            &&& contains(heading, query)
            &&& turn.acts.len() == 1 && contains(text_in(turn.acts[0]), query)
            &&& turn.acts[0] matches ActV::Send { slot: sent, .. } && sent == search.slot
        }),
{
    parts_are_contained("🔍 Searching for "@, query, "..."@);
    parts_are_contained("Results for "@, query, ":"@);
}

/// The results of a search are shown in the message of the search, one row for each in their order
/// and one to cancel; the rows of tracks and of albums bear their own icon. Where nothing is found,
/// that is said.
pub proof fn found_music_is_offered(t: SearchTask<Seq<char>>, list: Seq<FoundV>, i: int)
    requires
        t.wish is Offer,
    ensures
        search_turn(t, Ok(list)).task is Done,
        list.len() == 0 ==> search_turn(t, Ok(list)).acts == seq![
            ActV::Edit { slot: t.slot, text: t.nothing, keyboard: KeyboardV::Bare },
        ],
        list.len() > 0 ==> {
            &&& search_turn(t, Ok(list)).acts.len() == 1
            &&& search_turn(t, Ok(list)).acts[0] matches ActV::Edit {
                slot,
                text,
                keyboard: KeyboardV::Inline(rows),
            }
            &&& slot == t.slot && text == t.wish->heading
            &&& rows.len() == list.len() + 1
            &&& 0 <= i < list.len() && t.wish->icon == SearchKind::Track ==> crate::text::has_prefix(
                rows[i][0].label,
                "🎵 "@,
            )
            &&& 0 <= i < list.len() && t.wish->icon == SearchKind::Album ==> crate::text::has_prefix(
                rows[i][0].label,
                "💿 "@,
            )
        },
{
    if 0 <= i < list.len() {
        let icon = icon_of(t.wish->icon);
        reveal_strlit("🎵");
        reveal_strlit("💿");
        reveal_strlit("🎵 ");
        reveal_strlit("💿 ");
        reveal_strlit(" ");
        let rows = result_rows(icon, list);
        crate::keyboard::results_are_labelled(icon, list[i]);
        assert(rows[i] == crate::keyboard::result_row(icon, list[i]));
        assert("🎵"@ + " "@ =~= "🎵 "@);
        assert("💿"@ + " "@ =~= "💿 "@);
    }
    assert(list.len() == 0 ==> search_turn(t, Ok(list)).acts =~= seq![
        ActV::Edit { slot: t.slot, text: t.nothing, keyboard: KeyboardV::Bare },
    ]);
}

/// A link without a Deezer address in it is not queued, and where a short link leads is queued as if
/// it had been sent; one that leads nowhere ends there.
pub proof fn only_deezer_links_are_queued(url: Seq<char>)
    ensures
        deezer_kind(url) is None ==> link_turn(url).task is Done,
        deezer_kind(url) is Some ==> (link_turn(url).task matches Task::Queue(q) && q.url == url),
        short_link_turn(Some(url)) == link_turn(url),
        short_link_turn(None).task is Done,
{
}

/// Whatever goes wrong is told to the user with its reason, and ends the conversation.
pub proof fn complaints_are_passed_on(
    e: Seq<char>,
    search: SearchTask<Seq<char>>,
    queue: QueueTask<Seq<char>>,
    login: LoginTask<Seq<char>>,
    read: ReadEnvTask<Seq<char>>,
    fetch: FetchTask<Seq<char>>,
    transcribe: TranscribeTask,
    status: StatusTask,
)
    ensures
        search_turn(search, Err(e)).task is Done && contains(
            text_in(search_turn(search, Err(e)).acts[0]),
            e,
        ),
        queue_turn(queue, Err(e)).task is Done && contains(
            text_in(queue_turn(queue, Err(e)).acts[0]),
            e,
        ),
        login_turn(login, Err(e)).task is Done && contains(
            text_in(login_turn(login, Err(e)).acts[0]),
            e,
        ),
        read_env_turn(read, Err(e)).task is Done && contains(
            text_in(read_env_turn(read, Err(e)).acts[0]),
            e,
        ),
        write_env_turn(Err(e)).task is Done && contains(text_in(write_env_turn(Err(e)).acts[0]), e),
        fetch_turn(fetch, Err(FetchError::Download(e))).task is Done && contains(
            text_in(fetch_turn(fetch, Err(FetchError::Download(e))).acts[0]),
            e,
        ),
        fetch.origin == Origin::Callback ==> fetch_turn(fetch, Err(FetchError::Read(e))).task is Done
            && contains(text_in(fetch_turn(fetch, Err(FetchError::Read(e))).acts[0]), e),
        fetch.origin == Origin::Dialogue ==> fetch_turn(fetch, Err(FetchError::Read(e))).task
            == TaskV::Fail(e),
        transcribe_turn(transcribe, Err(e)).task is Done && contains(
            text_in(transcribe_turn(transcribe, Err(e)).acts[0]),
            e,
        ),
        recognize_turn(Err(e)).task is Done && contains(text_in(recognize_turn(Err(e)).acts[0]), e),
        status_turn(status, Err(e)).task is Done && contains(
            text_in(status_turn(status, Err(e)).acts[0]),
            e,
        ),
{
    ends_are_contained("❌ Search failed: "@, e);
    ends_are_contained(queue.failed, e);
    ends_are_contained("❌ ARL rejected by deemix: "@, e);
    ends_are_contained("⚠️ Logged in but could not read .env: "@, e);
    ends_are_contained("⚠️ Logged in but could not update .env: "@, e);
    ends_are_contained("❌ Failed to download audio: "@, e);
    ends_are_contained("❌ Failed to read audio: "@, e);
    ends_are_contained("❌ Transcription failed: "@, e);
    ends_are_contained("❌ Recognition failed: "@, e);
    ends_are_contained("❌ Can't reach deemix: "@, e);
}

/// What was queued is told as it was promised, in the message of the conversation.
pub proof fn queued_links_are_confirmed(t: QueueTask<Seq<char>>)
    ensures
        queue_turn(t, Ok(())).acts == seq![
            ActV::Edit { slot: Slot::Status, text: t.done, keyboard: KeyboardV::Bare },
        ],
        queue_turn(t, Ok(())).task is Done,
{
}

/// The status tells how many items are on their way, how many are waiting and how many are done,
/// each where there are any; a queue with none of them is told to be empty.
pub proof fn the_queue_is_told_in_numbers(q: QueueStatus, t: StatusTask)
    ensures
        ({
            let turn = status_turn(t, Ok(q));
            let text = text_in(turn.acts[0]);
            &&& turn.acts.len() == 1 && turn.acts[0] is Send && turn.task is Done
            &&& q.downloading > 0 ==> contains(
                text,
                "⬇️ Downloading: "@ + decimal(q.downloading as nat) + "\n"@,
            )
            &&& q.pending > 0 ==> contains(
                text,
                "⏳ Pending: "@ + decimal(q.pending as nat) + "\n"@,
            )
            &&& q.done > 0 && t.by_button ==> contains(
                text,
                "✅ Completed: "@ + decimal(q.done as nat),
            )
            &&& q.done > 0 && !t.by_button ==> contains(
                text,
                "✅ Completed (in queue): "@ + decimal(q.done as nat),
            )
            &&& q.downloading == 0 && q.pending == 0 && q.done == 0 ==> text
                == "✅ Deemix is reachable\n"@ + "📭 Queue is empty"@
        }),
{
    reveal_strlit("");
    let none = Seq::<char>::empty();
    let head = "✅ Deemix is reachable\n"@;
    let down = count_line("⬇️ Downloading: "@, q.downloading as nat, "\n"@);
    let wait = count_line("⏳ Pending: "@, q.pending as nat, "\n"@);
    let label = if t.by_button {
        "✅ Completed: "@
    } else {
        "✅ Completed (in queue): "@
    };
    let done = count_line(label, q.done as nat, ""@);
    let tail = if q.downloading == 0 && q.pending == 0 && q.done == 0 {
        "📭 Queue is empty"@
    } else {
        none
    };
    let text = status_text(q, t.by_button);
    assert(text == head + down + wait + done + tail);
    assert(text =~= head + down + (wait + done + tail));
    parts_are_contained(head, down, wait + done + tail);
    assert(text =~= (head + down) + wait + (done + tail));
    parts_are_contained(head + down, wait, done + tail);
    parts_are_contained(head + down + wait, done, tail);
    assert(label + decimal(q.done as nat) + ""@ =~= label + decimal(q.done as nat));
    assert(q.downloading == 0 && q.pending == 0 && q.done == 0 ==> text =~= head
        + "📭 Queue is empty"@);
}

/// A recognized song that is searched for gets a message of its own, in which the results will
/// stand: the message is sent before the search.
pub proof fn songs_are_searched_for_in_a_message_of_their_own(
    query: Seq<char>,
    title: Seq<char>,
    artist: Seq<char>,
)
    ensures
        ({
            let turn = song_search(query, title, artist);
            &&& turn.task matches Task::Search(search)
            &&& search.query == query && search.slot == Slot::Results
            &&& turn.acts.len() == 1
            &&& turn.acts[0] matches ActV::Send { slot: sent, .. } && sent == search.slot
            &&& contains(search.nothing, query)
            &&& search.wish matches Wish::Offer { heading, .. } && contains(heading, title)
                && contains(heading, artist)
        }),
{
    ends_are_contained("😕 No results on Deezer for: "@, query);
    let a = "Results for "@ + title;
    ends_are_contained("Results for "@, title);
    contained_parts_stay(a, " — "@, title);
    contained_parts_stay(a + " — "@, artist, title);
    contained_parts_stay(a + " — "@ + artist, ":"@, title);
    parts_are_contained(a + " — "@, artist, ":"@);
}

/// What is known of a Spotify link is shown while it is searched for, and so is the song that is
/// queued; where nothing is found, the user reads what was searched for.
pub proof fn spotify_songs_are_shown(t: SpotifyTask<Seq<char>>, meta: SpotifyMetaV, f: FoundV)
    ensures
        ({
            let found = spotify_turn(t, Some(meta));
            &&& found.acts.len() == 1 && found.acts[0] is Edit
            &&& contains(text_in(found.acts[0]), meta.label)
            &&& found.task matches Task::Search(search)
            &&& search.slot == Slot::Status && search.wish is QueueFirst
            &&& contains(search.nothing, meta.query)
            &&& search_turn(search, Ok(seq![f])).acts[0] matches ActV::Edit { slot: changed, .. }
                && changed == search.slot
            &&& contains(text_in(search_turn(search, Ok(seq![f])).acts[0]), f.title)
            &&& contains(text_in(search_turn(search, Ok(seq![f])).acts[0]), f.artist)
            &&& search_turn(search, Ok(seq![f])).task matches Task::Queue(q)
            &&& q.url == f.link && contains(q.done, f.title) && contains(q.done, f.artist)
        }),
{
    parts_are_contained("🔍 Found "@, meta.label, "\nSearching on Deezer..."@);
    ends_are_contained("😕 No results found on Deezer for: "@, meta.query);
    let a = "⏳ Queuing "@ + f.title;
    ends_are_contained("⏳ Queuing "@, f.title);
    contained_parts_stay(a, " — "@, f.title);
    contained_parts_stay(a + " — "@, f.artist, f.title);
    contained_parts_stay(a + " — "@ + f.artist, "..."@, f.title);
    parts_are_contained(a + " — "@, f.artist, "..."@);
    let b = "✅ "@ + f.title;
    ends_are_contained("✅ "@, f.title);
    contained_parts_stay(b, " — "@, f.title);
    contained_parts_stay(b + " — "@, f.artist, f.title);
    contained_parts_stay(b + " — "@ + f.artist, " added to queue!"@, f.title);
    parts_are_contained(b + " — "@, f.artist, " added to queue!"@);
}

/// Only an ARL that was accepted and written is told to be saved; what failed is told with a cross or
/// a warning sign.
pub proof fn success_and_failure_look_different(e: Seq<char>, login: LoginTask<Seq<char>>)
    ensures
        text_in(write_env_turn(Ok(())).acts[0])[0] == '✅',
        text_in(write_env_turn(Err(e)).acts[0])[0] == '⚠',
        text_in(login_turn(login, Ok(e)).acts[0])[0] == '✅',
        text_in(login_turn(login, Err(e)).acts[0])[0] == '❌',
        write_env_turn(Ok(())).task is Done,
{
    reveal_strlit("✅ ARL updated and saved! Downloads will use the new ARL immediately.");
    reveal_strlit("⚠️ Logged in but could not update .env: ");
    reveal_strlit("✅ Logged in!\n🔄 Updating .env file...");
    reveal_strlit("❌ ARL rejected by deemix: ");
}

/// A message for the results is sent in the turn.
pub open spec fn sends_results(turn: TurnV) -> bool {
    turn.acts.len() == 1 && (turn.acts[0] matches ActV::Send { slot, .. } && slot == Slot::Results)
}

/// Whichever way a recognized song comes to be searched for, the message for its results is sent
/// first; where it is queued or looked up, nothing is said in between.
pub proof fn results_have_a_message_to_stand_in(
    rec: RecognitionResultV,
    odesli: OdesliTask<Seq<char>>,
    link: Option<Seq<char>>,
    meta: MetaTask<Seq<char>>,
    found: Option<SpotifyMetaV>,
)
    ensures
        song_turn(rec).task is Search ==> sends_results(song_turn(rec)),
        song_turn(rec).task !is Search ==> song_turn(rec).acts.len() == 0,
        odesli_turn(odesli, link).task is Search ==> sends_results(odesli_turn(odesli, link)),
        odesli_turn(odesli, link).task !is Search ==> odesli_turn(odesli, link).acts.len() == 0,
        meta_turn(meta, found).task is Search && sends_results(meta_turn(meta, found)),
{
}

} // verus!
