//! The bot: what it knows, and how it reacts to commands, messages and buttons.
use vstd::hash_map::StringHashMap;
use vstd::prelude::*;
use vstd::string::*;
use vstd::utf8::{encode_utf8, is_ascii_chars_encode_utf8};

use crate::config::{Config, ConfigV};
use crate::deemix::{add_to_queue, queue_request, requests_say_what_is_wanted, FoundV, SearchKind};
use crate::http::{given, BodyV, Request, RequestV};
use crate::keyboard::{bitrate_label, choice_buttons, choice_rows, main_keyboard, main_rows};
use crate::keyboard::{next_bitrate, on_off, on_off_word, press_of, quality_after, quality_name};
use crate::keyboard::{read_callback, read_press, recognition_works, settings_keyboard};
use crate::keyboard::{callback_of, inline_buttons_work, settings_rows, voice_works, Callback};
use crate::keyboard::{menu_buttons_work, plain_texts_press_nothing, result_buttons_download};
use crate::keyboard::{settings_buttons_work, voice_choices_are_those_that_work, Press, REGISTER};
use crate::keyboard::{NOTIFICATIONS_ON, RECOGNITION_TOGGLE, RECOGNIZE, TRANSCRIBE, VOICE_TOGGLE};
use crate::links::{deezer_links_count, find_link, is_alphanumeric, is_deezer_host, is_deezer_kind};
use crate::links::{albums_are_no_tracks, plain_names_are_no_links, short_links_count};
use crate::links::{is_language, link_in, spotify_links_count, Link};
use crate::text::{cat2, cat3, numbers_are_written_apart, signed_decimal, trim, trimmed};
use crate::text::{all_digits, capitalized, decimal, decimals_are_short, trimmed_texts_stay};
use crate::text::{contains, parts_are_contained, write_signed};
use crate::turn::{arl_start, do_search, handle_spotify, handle_updatearl, link_turn, precede};
use crate::turn::{preceded, queue_url, quiet, say, says, shows, silent, spotify_start};
use crate::turn::{text_search, turn, turn_of, working_on, working_text, Act, ActV, FetchTask};
use crate::turn::{Keyboard, KeyboardV, Origin, Purpose, QueueTask, ShortLinkTask, Slot, State};
use crate::turn::{icon_of, queue_turn, search_turn, SearchTask, StatusTask, Task, TaskV, Turn};
use crate::turn::{text_in, SpotifyTask, TurnV, Wish};
use crate::users::{distinct, is_known, is_on, known_users_get_settings, nobody_is_notified_twice};
use crate::users::{notified, only_the_willing_are_notified, others_stay_known};
use crate::users::{settings_are_per_user, settings_of, toggled, toggling_twice_restores};
use crate::users::{users_stay_distinct, with_settings, with_user};
use crate::users::{Toggle, UserSettings, Users, UsersV};

verus! {

// ---- Pending voice notes -------------------------------------------------------------------

/// The voice notes whose buttons may still be pressed: the file of each, under a short key.
pub struct PendingVoices {
    entries: StringHashMap<String>,
}

impl View for PendingVoices {
    type V = Map<Seq<char>, Seq<char>>;

    closed spec fn view(&self) -> Map<Seq<char>, Seq<char>> {
        self.entries@.map_values(|file_id: String| file_id@)
    }
}

impl PendingVoices {
    /// No voice notes.
    pub fn new() -> (r: PendingVoices)
        ensures
            r@ == Map::<Seq<char>, Seq<char>>::empty(),
    {
        let r = PendingVoices { entries: StringHashMap::new() };
        assert(r@ =~= Map::empty());
        r
    }

    /// Keeps the file of a voice note under a key.
    pub fn insert(&mut self, key: String, file_id: String)
        ensures
            final(self)@ == old(self)@.insert(key@, file_id@),
    {
        let ghost before = self@;
        self.entries.insert(key, file_id);
        assert(self@ =~= before.insert(key@, file_id@));
    }

    /// The file of the voice note under a key.
    pub fn get(&self, key: &str) -> (r: Option<String>)
        ensures
            given(r) == (if self@.contains_key(key@) {
                Some(self@[key@])
            } else {
                None
            }),
    {
        match self.entries.get(key) {
            Some(file_id) => Some(file_id.clone()),
            None => None,
        }
    }
}

// ---- What the bot knows --------------------------------------------------------------------

/// What the bot knows while it runs.
pub struct BotState {
    pub config: Config,
    pub users: Users,
    /// The voice notes whose buttons may still be pressed.
    pub pending_voices: PendingVoices,
    /// The quality in which links are queued, for all users.
    pub current_bitrate: u8,
}

/// What the bot knows while it runs.
pub ghost struct BotStateV {
    pub config: ConfigV,
    pub users: UsersV,
    pub voices: Map<Seq<char>, Seq<char>>,
    pub bitrate: u8,
}

impl View for BotState {
    type V = BotStateV;

    open spec fn view(&self) -> BotStateV {
        BotStateV {
            config: self.config@,
            users: self.users@,
            voices: self.pending_voices@,
            bitrate: self.current_bitrate,
        }
    }
}

/// The bot at its start: links are queued in the configured quality.
pub open spec fn started(config: ConfigV, users: UsersV) -> BotStateV {
    BotStateV { config, users, voices: Map::empty(), bitrate: config.deemix_bitrate }
}

/// The request that queues a link in the current quality.
pub open spec fn queued(state: BotStateV, url: Seq<char>) -> RequestV {
    queue_request(state.config.deemix_url, url, state.bitrate)
}

impl BotState {
    /// The bot at its start: links are queued in the configured quality.
    pub fn new(config: Config, users: Users) -> (r: BotState)
        ensures
            r@ == started(config@, users@),
    {
        let current_bitrate: u8 = config.deemix_bitrate;
        BotState { config, users, pending_voices: PendingVoices::new(), current_bitrate }
    }

    /// Asks deemix to download a link in the current quality.
    pub fn queue(&self, url: &str) -> (r: Request)
        ensures
            r@ == queued(self@, url@),
    {
        add_to_queue(self.config.deemix_url.as_str(), url, self.current_bitrate)
    }
}

/// The number of the user who sent a message, zero where nobody did.
pub fn user_id_from_msg(from: Option<u64>) -> (r: i64)
    ensures
        r == (match from {
            Some(id) => id as i64,
            None => 0,
        }),
{
    match from {
        Some(id) => id as i64,
        None => 0,
    }
}

// ---- Commands ------------------------------------------------------------------------------

/// A command.
#[derive(Clone, Copy, Debug, PartialEq, Eq, Structural)]
pub enum Command {
    Start,
    Help,
    Status,
    Dl,
    Search,
    Album,
    Sp,
    Menu,
    Settings,
    Updatearl,
    Register,
}

pub const WELCOME: &'static str =
    "👋 Hey! I'm Teleemix — your personal music download assistant.\n\nJust send me a song name, a Deezer link, or a Spotify link and I'll find it and queue it for download on your server. No technical stuff needed!\n\n📲 Use /menu to see quick action buttons.\n\nFor a full list of what I can do, type /help.";

pub const GUIDE: &'static str =
    "ℹ️ Teleemix — Full Guide\n\n🎵 What I do:\nI connect to your personal deemix server and queue music downloads for you. Just tell me what you want!\n\n📥 Ways to request music:\n• Type any song or artist name → search and pick from results\n• Send a Deezer link (track, album, playlist) → queued instantly\n• Send a Spotify link (track or album) → found on Deezer and queued\n• Send a voice note → transcribe what you said or recognize the song\n\n🔧 All commands:\n/menu — quick action buttons\n/search — search for a track\n/album — search for an album\n/dl — queue from a Deezer URL\n/sp — queue from a Spotify link\n/status — check deemix connection and queue\n/settings — manage your personal preferences\n/updatearl — update your Deezer ARL\n\n⚙️ Settings (via /settings):\n• Restart notifications — get notified when the bot restarts\n• Voice search — transcribe voice notes to search\n• Song recognition — identify songs from voice recordings\n\n💡 Tip: You don't need commands — just send a song name or link directly!";

pub const SHORT_GUIDE: &'static str =
    "ℹ️ Teleemix — Full Guide\n\n🎵 What I do:\nI connect to your personal deemix server and queue music downloads. Just tell me what you want!\n\n📥 Ways to request music:\n• Type any song or artist name → search and pick\n• Send a Deezer link → queued instantly\n• Send a Spotify link → found on Deezer and queued\n• Send a voice note → transcribe or recognize\n\n🔧 Commands:\n/menu — quick action buttons\n/search — search for a track\n/album — search for an album\n/dl — queue from a Deezer URL\n/sp — queue from a Spotify link\n/status — check deemix\n/settings — your personal settings\n/updatearl — update your Deezer ARL\n\n💡 Tip: Just send a song name or link — no commands needed!";

pub const ASK_SEARCH: &'static str = "🔍 What song or artist are you looking for?";

pub const ASK_ALBUM: &'static str = "💿 What album are you looking for?";

pub const ASK_SPOTIFY: &'static str = "🟢 Send me a Spotify track or album link:";

pub const ASK_DEEZER: &'static str = "🎵 Send me a Deezer URL:";

pub const ASK_ARL: &'static str = "Please send your new Deezer ARL:";

pub const CHOOSE: &'static str = "Choose an action:";

pub const YOUR_SETTINGS: &'static str = "⚙️ Your settings — tap to toggle:";

/// The bot asks for something and waits for it.
pub open spec fn asks(state: State, question: Seq<char>) -> TurnV {
    preceded(ActV::SetState(state), turn_of(says(question), Task::Done))
}

fn ask(state: State, question: &str) -> (r: Turn)
    ensures
        r@ == asks(state, question@),
{
    precede(Act::SetState(state), turn(say(question.to_owned()), Task::Done))
}

/// A message with the buttons of the menu.
pub open spec fn with_menu(text: Seq<char>, s: UserSettings, config: ConfigV) -> TurnV {
    turn_of(
        ActV::Send {
            slot: Slot::Status,
            text,
            keyboard: KeyboardV::Reply(main_rows(s, config)),
        },
        Task::Done,
    )
}

fn menu(text: &str, s: &UserSettings, config: &Config) -> (r: Turn)
    ensures
        r@ == with_menu(text@, *s, config@),
{
    let act = Act::Send {
        slot: Slot::Status,
        text: text.to_owned(),
        keyboard: Keyboard::Reply(main_keyboard(s, config)),
    };
    turn(act, Task::Done)
}

/// A message with the buttons of the settings.
pub open spec fn with_settings_shown(
    text: Seq<char>,
    s: UserSettings,
    config: ConfigV,
    bitrate: u8,
) -> TurnV {
    turn_of(
        ActV::Send {
            slot: Slot::Status,
            text,
            keyboard: KeyboardV::Reply(settings_rows(s, config, bitrate)),
        },
        Task::Done,
    )
}

fn show_settings(text: String, s: &UserSettings, config: &Config, bitrate: u8) -> (r: Turn)
    ensures
        r@ == with_settings_shown(text@, *s, config@, bitrate),
{
    let act = Act::Send {
        slot: Slot::Status,
        text,
        keyboard: Keyboard::Reply(settings_keyboard(s, config, bitrate)),
    };
    turn(act, Task::Done)
}

/// The state once the bot knows the user.
pub open spec fn knowing(state: BotStateV, user: i64) -> BotStateV {
    BotStateV { users: with_user(state.users, user), ..state }
}

/// The settings of a user who wants to hear of restarts.
pub open spec fn registered(s: UserSettings) -> UserSettings {
    UserSettings { restart_notifications: true, ..s }
}

/// How the bot answers a command of a user with these settings.
pub open spec fn command_reply(
    cmd: Command,
    s: UserSettings,
    config: ConfigV,
    bitrate: u8,
) -> TurnV {
    match cmd {
        Command::Start => with_menu(WELCOME@, s, config),
        Command::Help => turn_of(says(GUIDE@), Task::Done),
        Command::Status => quiet(Task::Status(StatusTask { by_button: false })),
        Command::Dl => asks(State::AwaitingDl, ASK_DEEZER@),
        Command::Search => asks(State::AwaitingSearch, ASK_SEARCH@),
        Command::Album => asks(State::AwaitingAlbum, ASK_ALBUM@),
        Command::Sp => asks(State::AwaitingSpotify, ASK_SPOTIFY@),
        Command::Menu => with_menu(CHOOSE@, s, config),
        Command::Settings => with_settings_shown(YOUR_SETTINGS@, s, config, bitrate),
        Command::Updatearl => asks(State::AwaitingArl, ASK_ARL@),
        Command::Register => with_settings_shown(
            toggle_text(Toggle::RestartNotifications, true),
            registered(s),
            config,
            bitrate,
        ),
    }
}

/// How the bot reacts to a command. Only `/register` changes more than that the user is known.
pub open spec fn command_turn(state: BotStateV, user: i64, cmd: Command) -> (BotStateV, TurnV) {
    let s = settings_of(state.users, user);
    let after = if cmd == Command::Register {
        BotStateV { users: with_settings(state.users, user, registered(s)), ..state }
    } else {
        knowing(state, user)
    };
    (
        after,
        preceded(ActV::SaveUsers, command_reply(cmd, s, state.config, state.bitrate)),
    )
}

impl BotState {
    /// Reacts to a command. The bot knows the user from here on.
    pub fn handle_command(&mut self, user: i64, cmd: Command) -> (r: Turn)
        ensures
            (final(self)@, r@) == command_turn(old(self)@, user, cmd),
            distinct(final(self)@.users),
    {
        let ghost before = self@;
        let s = self.users.get_or_create(user);
        let reaction = match cmd {
            Command::Start => menu(WELCOME, &s, &self.config),
            Command::Help => turn(say(GUIDE.to_owned()), Task::Done),
            Command::Status => silent(Task::Status(StatusTask { by_button: false })),
            Command::Dl => ask(State::AwaitingDl, ASK_DEEZER),
            Command::Search => ask(State::AwaitingSearch, ASK_SEARCH),
            Command::Album => ask(State::AwaitingAlbum, ASK_ALBUM),
            Command::Sp => ask(State::AwaitingSpotify, ASK_SPOTIFY),
            Command::Menu => menu(CHOOSE, &s, &self.config),
            Command::Settings => show_settings(
                YOUR_SETTINGS.to_owned(),
                &s,
                &self.config,
                self.current_bitrate,
            ),
            Command::Updatearl => ask(State::AwaitingArl, ASK_ARL),
            Command::Register => {
                proof {
                    settings_are_per_user(before.users, user, s, user);
                    known_users_get_settings(before.users, user, registered(s));
                    users_stay_distinct(before.users, user, registered(s));
                }
                return self.register(user, &s);
            },
        };
        precede(Act::SaveUsers, reaction)
    }
}

// ---- Answers to a question -----------------------------------------------------------------

/// What a message holds.
#[derive(Debug, PartialEq)]
pub enum Incoming<S = String> {
    Voice(S),
    Text(S),
    Other,
}

/// What a message holds.
pub type IncomingV = Incoming<Seq<char>>;

impl View for Incoming {
    type V = IncomingV;

    open spec fn view(&self) -> IncomingV {
        match self {
            Incoming::Voice(s) => Incoming::Voice(s@),
            Incoming::Text(s) => Incoming::Text(s@),
            Incoming::Other => Incoming::Other,
        }
    }
}

/// The text of a message, without the white space around it.
pub open spec fn text_of(incoming: IncomingV) -> Option<Seq<char>> {
    match incoming {
        Incoming::Text(text) => Some(trimmed(text)),
        _ => None,
    }
}

fn read_text(incoming: &Incoming) -> (r: Option<String>)
    ensures
        given(r) == text_of(incoming@),
{
    match incoming {
        Incoming::Text(text) => Some(trim(text.as_str())),
        _ => None,
    }
}

/// The chat stops waiting, and what the message asked for is done.
pub open spec fn after_exit(rest: TurnV) -> TurnV {
    preceded(ActV::ExitDialogue, rest)
}

/// An ARL of fewer bytes than this is taken for a mistake.
pub const MIN_ARL_LEN: usize = 100;

/// How the bot reacts to an ARL: one that looks too short is asked for again.
pub open spec fn arl_turn(text: Option<Seq<char>>) -> TurnV {
    match text {
        None => turn_of(says("Please send the ARL as text."@), Task::Done),
        Some(arl) => if encode_utf8(arl).len() < MIN_ARL_LEN {
            turn_of(
                says("❌ That ARL looks too short, double check it. Try again:"@),
                Task::Done,
            )
        } else {
            after_exit(arl_start(arl))
        },
    }
}

/// How the bot reacts to a voice note that it asked for.
pub open spec fn asked_voice_turn(incoming: IncomingV, purpose: Purpose) -> TurnV {
    match incoming {
        Incoming::Voice(file_id) => after_exit(
            turn_of(
                says(working_on(purpose)),
                Task::Fetch(FetchTask { file_id, purpose, origin: Origin::Dialogue }),
            ),
        ),
        _ => after_exit(
            turn_of(
                says("⚠️ I expected a voice note. Use /menu to try again."@),
                Task::Done,
            ),
        ),
    }
}

/// How the bot reacts to a message in a chat that waits for something. (A chat that waits for
/// nothing is no business of it.)
pub open spec fn answer_turn(state: State, incoming: IncomingV) -> Option<TurnV> {
    let text = text_of(incoming);
    match state {
        State::Idle => None,
        State::AwaitingArl => Some(arl_turn(text)),
        State::AwaitingSearch => Some(
            after_exit(
                match text {
                    Some(query) => text_search(query, SearchKind::Track),
                    None => quiet(Task::Done),
                },
            ),
        ),
        State::AwaitingAlbum => Some(
            after_exit(
                match text {
                    Some(query) => text_search(query, SearchKind::Album),
                    None => quiet(Task::Done),
                },
            ),
        ),
        State::AwaitingDl => Some(
            after_exit(
                match text {
                    Some(url) => link_turn(url),
                    None => quiet(Task::Done),
                },
            ),
        ),
        State::AwaitingSpotify => Some(
            after_exit(
                match text {
                    Some(url) => spotify_start(url),
                    None => quiet(Task::Done),
                },
            ),
        ),
        State::AwaitingVoiceTranscribe => Some(asked_voice_turn(incoming, Purpose::Transcribe)),
        State::AwaitingVoiceRecognize => Some(asked_voice_turn(incoming, Purpose::Recognize)),
    }
}

fn exit_then(rest: Turn) -> (r: Turn)
    ensures
        r@ == after_exit(rest@),
{
    precede(Act::ExitDialogue, rest)
}

/// Searches for what a message names.
pub fn receive_search(incoming: &Incoming, kind: SearchKind) -> (r: Turn)
    ensures
        r@ == after_exit(
            match text_of(incoming@) {
                Some(query) => text_search(query, kind),
                None => quiet(Task::Done),
            },
        ),
{
    match read_text(incoming) {
        Some(query) => exit_then(do_search(query.as_str(), kind)),
        None => exit_then(silent(Task::Done)),
    }
}

/// Queues the Deezer link that a message holds.
pub fn receive_dl(incoming: &Incoming) -> (r: Turn)
    ensures
        r@ == after_exit(
            match text_of(incoming@) {
                Some(url) => link_turn(url),
                None => quiet(Task::Done),
            },
        ),
{
    match read_text(incoming) {
        Some(url) => exit_then(queue_url(url.as_str())),
        None => exit_then(silent(Task::Done)),
    }
}

/// Looks up the Spotify link that a message holds.
pub fn receive_spotify(incoming: &Incoming) -> (r: Turn)
    ensures
        r@ == after_exit(
            match text_of(incoming@) {
                Some(url) => spotify_start(url),
                None => quiet(Task::Done),
            },
        ),
{
    match read_text(incoming) {
        Some(url) => exit_then(handle_spotify(url.as_str())),
        None => exit_then(silent(Task::Done)),
    }
}

/// Tries the ARL that a message holds.
pub fn receive_arl(incoming: &Incoming) -> (r: Turn)
    ensures
        r@ == arl_turn(text_of(incoming@)),
{
    let arl = match read_text(incoming) {
        Some(arl) => arl,
        None => return turn(say("Please send the ARL as text.".to_owned()), Task::Done),
    };
    if arl.as_str().as_bytes().len() < MIN_ARL_LEN {
        return turn(
            say("❌ That ARL looks too short, double check it. Try again:".to_owned()),
            Task::Done,
        );
    }
    exit_then(handle_updatearl(arl.as_str()))
}

/// Works on the voice note that a message holds.
pub fn receive_voice(incoming: &Incoming, purpose: Purpose) -> (r: Turn)
    ensures
        r@ == asked_voice_turn(incoming@, purpose),
{
    match incoming {
        Incoming::Voice(file_id) => {
            let task = FetchTask { file_id: file_id.clone(), purpose, origin: Origin::Dialogue };
            exit_then(turn(say(working_text(purpose).to_owned()), Task::Fetch(task)))
        },
        _ => exit_then(
            turn(
                say("⚠️ I expected a voice note. Use /menu to try again.".to_owned()),
                Task::Done,
            ),
        ),
    }
}

/// Reacts to a message in a chat that waits for something.
pub fn receive(state: State, incoming: &Incoming) -> (r: Option<Turn>)
    ensures
        match r {
            Some(turn) => answer_turn(state, incoming@) == Some(turn@),
            None => answer_turn(state, incoming@) is None,
        },
{
    match state {
        State::Idle => None,
        State::AwaitingArl => Some(receive_arl(incoming)),
        State::AwaitingSearch => Some(receive_search(incoming, SearchKind::Track)),
        State::AwaitingAlbum => Some(receive_search(incoming, SearchKind::Album)),
        State::AwaitingDl => Some(receive_dl(incoming)),
        State::AwaitingSpotify => Some(receive_spotify(incoming)),
        State::AwaitingVoiceTranscribe => Some(receive_voice(incoming, Purpose::Transcribe)),
        State::AwaitingVoiceRecognize => Some(receive_voice(incoming, Purpose::Recognize)),
    }
}

/// Tells whether a chat still waits for what it waited for when its time began.
pub fn is_still_waiting(now: Option<State>, awaited: State) -> (r: bool)
    ensures
        r == (now == Some(awaited)),
{
    match now {
        Some(state) => state == awaited,
        None => false,
    }
}

// ---- Messages ------------------------------------------------------------------------------

pub const VOICE_OFF: &'static str =
    "⚠️ Voice features are not configured or disabled. Use /settings to manage them.";

pub const WHAT_WITH_VOICE: &'static str = "🎙️ What should I do with this voice note?";

pub const VOICE_UNCONFIGURED: &'static str =
    "⚠️ Voice search is not configured. Add OPENAI_API_KEY or WHISPER_URL to your .env, or enable it in /settings.";

pub const VOICE_WANTED: &'static str =
    "🎤 Send me a voice note and I'll transcribe what you said and search for it.\n\n⏱ You have 60 seconds.";

pub const VOICE_EXPIRED: &'static str =
    "⏱ Voice search timed out. Send a voice note or use /menu to start again.";

pub const SONG_UNCONFIGURED: &'static str =
    "⚠️ Song recognition is not configured. Add AUDD_API_KEY to your .env, or enable it in /settings.";

pub const SONG_WANTED: &'static str =
    "🎵 Send me a voice recording of a song and I'll identify it.\n\n⏱ You have 60 seconds.";

pub const SONG_EXPIRED: &'static str =
    "⏱ Song recognition timed out. Send a voice note or use /menu to start again.";

pub const VOICE_NO_KEY: &'static str =
    "⚠️ Voice search is not configured. Add OPENAI_API_KEY to your .env to enable it.";

pub const SONG_NO_KEY: &'static str =
    "⚠️ Song recognition is not configured. Add AUDD_API_KEY to your .env to enable it.";

pub const LOCKED: &'static str = "🔒 Download quality is locked by the administrator.";

/// How long a chat waits for a voice note, in seconds.
pub const VOICE_SECONDS: u64 = 60;

/// A voice note is asked for, for a limited time, where that works for the user.
pub open spec fn voice_asked(
    works: bool,
    refusal: Seq<char>,
    state: State,
    question: Seq<char>,
    notice: Seq<char>,
) -> TurnV {
    if !works {
        turn_of(says(refusal), Task::Done)
    } else {
        TurnV {
            acts: seq![
                ActV::SetState(state),
                says(question),
                ActV::Expire { state, seconds: VOICE_SECONDS, notice },
            ],
            task: Task::Done,
        }
    }
}

fn ask_voice(works: bool, refusal: &str, state: State, question: &str, notice: &str) -> (r: Turn)
    ensures
        r@ == voice_asked(works, refusal@, state, question@, notice@),
{
    if !works {
        turn(say(refusal.to_owned()), Task::Done)
    } else {
        let expire = Act::Expire { state, seconds: VOICE_SECONDS, notice: notice.to_owned() };
        let r = precede(
            Act::SetState(state),
            precede(say(question.to_owned()), turn(expire, Task::Done)),
        );
        assert(r@.acts =~= voice_asked(works, refusal@, state, question@, notice@).acts);
        r
    }
}

/// What is said once a setting was turned.
pub open spec fn toggle_text(which: Toggle, on: bool) -> Seq<char> {
    let label = match which {
        Toggle::RestartNotifications => NOTIFICATIONS_ON@,
        Toggle::VoiceSearch => VOICE_TOGGLE@,
        Toggle::SongRecognition => RECOGNITION_TOGGLE@,
    };
    label + " "@ + on_off(on)
}

/// A setting of the user is turned, stored and shown.
pub open spec fn toggle_turn(state: BotStateV, user: i64, which: Toggle) -> (BotStateV, TurnV) {
    let s = toggled(settings_of(state.users, user), which);
    (
        BotStateV { users: with_settings(state.users, user, s), ..state },
        preceded(
            ActV::SaveUsers,
            with_settings_shown(
                toggle_text(which, is_on(s, which)),
                s,
                state.config,
                state.bitrate,
            ),
        ),
    )
}

/// The quality is changed for everybody, unless it is locked.
pub open spec fn quality_turn(state: BotStateV, user: i64) -> (BotStateV, TurnV) {
    if state.config.deemix_bitrate_lock {
        (state, turn_of(says(LOCKED@), Task::Done))
    } else {
        let bitrate = quality_after(state.bitrate);
        (
            BotStateV { bitrate, ..state },
            with_settings_shown(
                "🎚️ Download quality changed to: "@ + quality_name(bitrate)
                    + "\n\n⚠️ This affects ALL users on this server."@,
                settings_of(state.users, user),
                state.config,
                bitrate,
            ),
        )
    }
}

/// How the bot reacts to the press of a button by a user that it knows.
pub open spec fn press_turn(state: BotStateV, user: i64, press: Press) -> Option<
    (BotStateV, TurnV),
> {
    let s = settings_of(state.users, user);
    match press {
        Press::Nothing => None,
        Press::SearchTrack => Some((state, asks(State::AwaitingSearch, ASK_SEARCH@))),
        Press::SearchAlbum => Some((state, asks(State::AwaitingAlbum, ASK_ALBUM@))),
        Press::FromSpotify => Some((state, asks(State::AwaitingSpotify, ASK_SPOTIFY@))),
        Press::FromDeezer => Some((state, asks(State::AwaitingDl, ASK_DEEZER@))),
        Press::VoiceSearch => Some(
            (
                state,
                voice_asked(
                    voice_works(s, state.config),
                    VOICE_UNCONFIGURED@,
                    State::AwaitingVoiceTranscribe,
                    VOICE_WANTED@,
                    VOICE_EXPIRED@,
                ),
            ),
        ),
        Press::RecognizeSong => Some(
            (
                state,
                voice_asked(
                    recognition_works(s, state.config),
                    SONG_UNCONFIGURED@,
                    State::AwaitingVoiceRecognize,
                    SONG_WANTED@,
                    SONG_EXPIRED@,
                ),
            ),
        ),
        Press::CheckStatus => Some(
            (state, quiet(Task::Status(StatusTask { by_button: true }))),
        ),
        Press::Settings => Some(
            (state, with_settings_shown(YOUR_SETTINGS@, s, state.config, state.bitrate)),
        ),
        Press::BackToMenu => Some((state, with_menu(CHOOSE@, s, state.config))),
        Press::UpdateArl => Some((state, asks(State::AwaitingArl, ASK_ARL@))),
        Press::Help => Some((state, turn_of(says(SHORT_GUIDE@), Task::Done))),
        Press::Register => Some(command_turn(state, user, Command::Register)),
        Press::Turn(Toggle::RestartNotifications) => Some(
            toggle_turn(state, user, Toggle::RestartNotifications),
        ),
        Press::Turn(Toggle::VoiceSearch) => if state.config.whisper() {
            Some(toggle_turn(state, user, Toggle::VoiceSearch))
        } else {
            Some((state, turn_of(says(VOICE_NO_KEY@), Task::Done)))
        },
        Press::Turn(Toggle::SongRecognition) => if state.config.audd() {
            Some(toggle_turn(state, user, Toggle::SongRecognition))
        } else {
            Some((state, turn_of(says(SONG_NO_KEY@), Task::Done)))
        },
        Press::ChangeQuality => Some(quality_turn(state, user)),
        Press::QualityLocked => Some((state, turn_of(says(LOCKED@), Task::Done))),
    }
}

/// How the bot reacts to a text that presses no button: links are looked up, followed or queued,
/// anything else is searched for.
pub open spec fn free_text_turn(text: Seq<char>) -> TurnV {
    match link_in(text) {
        Link::Spotify => spotify_start(text),
        Link::DeezerShort => quiet(Task::ShortLink(ShortLinkTask { url: text })),
        Link::Deezer => link_turn(text),
        Link::Nothing => text_search(text, SearchKind::Track),
    }
}

/// The key under which a voice note is kept: the number of its message.
pub open spec fn voice_key(message_id: i32) -> Seq<char> {
    signed_decimal(message_id as int)
}

/// How the bot reacts to a voice note that it did not ask for.
pub open spec fn voice_turn(
    state: BotStateV,
    s: UserSettings,
    message_id: i32,
    file_id: Seq<char>,
) -> (BotStateV, TurnV) {
    let song = recognition_works(s, state.config);
    let voice = voice_works(s, state.config);
    let key = voice_key(message_id);
    if !song && !voice {
        (state, after_exit(turn_of(says(VOICE_OFF@), Task::Done)))
    } else {
        (
            BotStateV { voices: state.voices.insert(key, file_id), ..state },
            after_exit(
                turn_of(
                    ActV::Send {
                        slot: Slot::Status,
                        text: WHAT_WITH_VOICE@,
                        keyboard: KeyboardV::Inline(
                            choice_rows(
                                voice,
                                "🎤 Transcribe what I said"@,
                                TRANSCRIBE@ + key,
                                song,
                                "🎵 Recognize the song"@,
                                RECOGNIZE@ + key,
                            ),
                        ),
                    },
                    Task::Done,
                ),
            ),
        )
    }
}

/// How the bot reacts to a message in a chat that waits for nothing.
pub open spec fn message_turn(
    state: BotStateV,
    user: i64,
    message_id: i32,
    incoming: IncomingV,
) -> (BotStateV, TurnV) {
    let known = knowing(state, user);
    let (after, turn) = match incoming {
        Incoming::Voice(file_id) => voice_turn(
            known,
            settings_of(known.users, user),
            message_id,
            file_id,
        ),
        Incoming::Text(text) => match press_turn(known, user, press_of(trimmed(text))) {
            Some(reaction) => reaction,
            None => (known, free_text_turn(trimmed(text))),
        },
        Incoming::Other => (known, quiet(Task::Done)),
    };
    (after, preceded(ActV::SaveUsers, turn))
}

/// Reacts to a text that presses no button.
pub fn handle_text(text: &str) -> (r: Turn)
    ensures
        r@ == free_text_turn(text@),
{
    match find_link(text) {
        Link::Spotify => handle_spotify(text),
        Link::DeezerShort => silent(Task::ShortLink(ShortLinkTask { url: text.to_owned() })),
        Link::Deezer => queue_url(text),
        Link::Nothing => do_search(text, SearchKind::Track),
    }
}

impl BotState {
    /// Turns restart notifications on, whether they were on before or not.
    fn register(&mut self, user: i64, s: &UserSettings) -> (r: Turn)
        requires
            *s == settings_of(old(self)@.users, user),
        ensures
            (final(self)@, r@) == command_turn(old(self)@, user, Command::Register),
    {
        let wanted = UserSettings { restart_notifications: true, ..*s };
        self.users.put(user, wanted);
        let text = cat3(NOTIFICATIONS_ON, " ", on_off_word(true));
        precede(
            Act::SaveUsers,
            show_settings(text, &wanted, &self.config, self.current_bitrate),
        )
    }

    fn turn_setting(&mut self, user: i64, which: Toggle) -> (r: Turn)
        ensures
            (final(self)@, r@) == toggle_turn(old(self)@, user, which),
    {
        let s = self.users.update(user, which);
        let label: &str = match which {
            Toggle::RestartNotifications => NOTIFICATIONS_ON,
            Toggle::VoiceSearch => VOICE_TOGGLE,
            Toggle::SongRecognition => RECOGNITION_TOGGLE,
        };
        let text = cat3(label, " ", on_off_word(s.get(which)));
        precede(
            Act::SaveUsers,
            show_settings(text, &s, &self.config, self.current_bitrate),
        )
    }

    fn change_quality(&mut self, user: i64, s: &UserSettings) -> (r: Turn)
        requires
            *s == settings_of(old(self)@.users, user),
        ensures
            (final(self)@, r@) == quality_turn(old(self)@, user),
    {
        if self.config.deemix_bitrate_lock {
            return turn(say(LOCKED.to_owned()), Task::Done);
        }
        let bitrate: u8 = next_bitrate(self.current_bitrate);
        self.current_bitrate = bitrate;
        let text = cat3(
            "🎚️ Download quality changed to: ",
            bitrate_label(bitrate),
            "\n\n⚠️ This affects ALL users on this server.",
        );
        show_settings(text, s, &self.config, bitrate)
    }

    /// Reacts to the press of a button.
    fn handle_press(&mut self, user: i64, press: Press, s: &UserSettings) -> (r: Option<Turn>)
        requires
            *s == settings_of(old(self)@.users, user),
        ensures
            match r {
                Some(turn) => press_turn(old(self)@, user, press) == Some((final(self)@, turn@)),
                None => press_turn(old(self)@, user, press) is None && final(self)@ == old(self)@,
            },
    {
        match press {
            Press::Nothing => None,
            Press::SearchTrack => Some(ask(State::AwaitingSearch, ASK_SEARCH)),
            Press::SearchAlbum => Some(ask(State::AwaitingAlbum, ASK_ALBUM)),
            Press::FromSpotify => Some(ask(State::AwaitingSpotify, ASK_SPOTIFY)),
            Press::FromDeezer => Some(ask(State::AwaitingDl, ASK_DEEZER)),
            Press::VoiceSearch => {
                let works = self.config.whisper_enabled() && s.voice_search;
                Some(
                    ask_voice(
                        works,
                        VOICE_UNCONFIGURED,
                        State::AwaitingVoiceTranscribe,
                        VOICE_WANTED,
                        VOICE_EXPIRED,
                    ),
                )
            },
            Press::RecognizeSong => {
                let works = self.config.audd_enabled() && s.song_recognition;
                Some(
                    ask_voice(
                        works,
                        SONG_UNCONFIGURED,
                        State::AwaitingVoiceRecognize,
                        SONG_WANTED,
                        SONG_EXPIRED,
                    ),
                )
            },
            Press::CheckStatus => Some(silent(Task::Status(StatusTask { by_button: true }))),
            Press::Settings => Some(
                show_settings(YOUR_SETTINGS.to_owned(), s, &self.config, self.current_bitrate),
            ),
            Press::BackToMenu => Some(menu(CHOOSE, s, &self.config)),
            Press::UpdateArl => Some(ask(State::AwaitingArl, ASK_ARL)),
            Press::Help => Some(turn(say(SHORT_GUIDE.to_owned()), Task::Done)),
            Press::Register => Some(self.register(user, s)),
            Press::Turn(which) => {
                match which {
                    Toggle::RestartNotifications => {},
                    Toggle::VoiceSearch => {
                        if !self.config.whisper_enabled() {
                            return Some(turn(say(VOICE_NO_KEY.to_owned()), Task::Done));
                        }
                    },
                    Toggle::SongRecognition => {
                        if !self.config.audd_enabled() {
                            return Some(turn(say(SONG_NO_KEY.to_owned()), Task::Done));
                        }
                    },
                }
                Some(self.turn_setting(user, which))
            },
            Press::ChangeQuality => Some(self.change_quality(user, s)),
            Press::QualityLocked => Some(turn(say(LOCKED.to_owned()), Task::Done)),
        }
    }

    fn handle_voice(&mut self, s: &UserSettings, message_id: i32, file_id: &str) -> (r: Turn)
        ensures
            (final(self)@, r@) == voice_turn(old(self)@, *s, message_id, file_id@),
    {
        let song = self.config.audd_enabled() && s.song_recognition;
        let voice = self.config.whisper_enabled() && s.voice_search;
        if !song && !voice {
            return exit_then(turn(say(VOICE_OFF.to_owned()), Task::Done));
        }
        let key = write_signed(message_id as i64);
        let buttons = choice_buttons(
            voice,
            "🎤 Transcribe what I said",
            cat2(TRANSCRIBE, key.as_str()),
            song,
            "🎵 Recognize the song",
            cat2(RECOGNIZE, key.as_str()),
        );
        self.pending_voices.insert(key, file_id.to_owned());
        let act = Act::Send {
            slot: Slot::Status,
            text: WHAT_WITH_VOICE.to_owned(),
            keyboard: Keyboard::Inline(buttons),
        };
        exit_then(turn(act, Task::Done))
    }

    /// Reacts to a message in a chat that waits for nothing. The bot knows the user from here on.
    pub fn handle_message(&mut self, user: i64, message_id: i32, incoming: &Incoming) -> (r: Turn)
        ensures
            (final(self)@, r@) == message_turn(old(self)@, user, message_id, incoming@),
            distinct(final(self)@.users),
    {
        let ghost before = self@;
        let s = self.users.get_or_create(user);
        proof {
            settings_are_per_user(before.users, user, s, user);
            senders_are_known(before, user, message_id, incoming@);
        }
        let reaction = match incoming {
            Incoming::Voice(file_id) => self.handle_voice(&s, message_id, file_id.as_str()),
            Incoming::Text(text) => {
                let text = trim(text.as_str());
                match self.handle_press(user, read_press(text.as_str()), &s) {
                    Some(reaction) => reaction,
                    None => handle_text(text.as_str()),
                }
            },
            Incoming::Other => silent(Task::Done),
        };
        precede(Act::SaveUsers, reaction)
    }
}

/// How the bot offers what can be done with a voice note of a user with these settings.
pub open spec fn voice_note_turn(
    state: BotStateV,
    s: UserSettings,
    message_id: i32,
    file_id: Seq<char>,
) -> (BotStateV, TurnV) {
    let voice = voice_works(s, state.config);
    let song = recognition_works(s, state.config);
    let key = voice_key(message_id);
    if !voice && !song {
        (
            state,
            turn_of(
                says(
                    "⚠️ Voice features are not configured or disabled.\nCheck /settings or ask your admin to add API keys."@,
                ),
                Task::Done,
            ),
        )
    } else {
        (
            BotStateV { voices: state.voices.insert(key, file_id), ..state },
            turn_of(
                ActV::Send {
                    slot: Slot::Status,
                    text: "🎤 What should I do with this voice note?"@,
                    keyboard: KeyboardV::Inline(
                        choice_rows(
                            voice,
                            "🗣️ Search what I said"@,
                            TRANSCRIBE@ + key,
                            song,
                            "🎵 Recognize the song"@,
                            RECOGNIZE@ + key,
                        ),
                    ),
                },
                Task::Done,
            ),
        )
    }
}

/// How the bot offers what can be done with a voice note of a chat, which it knows from here on.
pub open spec fn chat_note_turn(
    state: BotStateV,
    chat: i64,
    message_id: i32,
    file_id: Seq<char>,
) -> (BotStateV, TurnV) {
    voice_note_turn(knowing(state, chat), settings_of(state.users, chat), message_id, file_id)
}

impl BotState {
    /// Offers what can be done with a voice note. The bot knows the chat from here on.
    pub fn handle_voice_note(&mut self, chat: i64, message_id: i32, file_id: &str) -> (r: Turn)
        ensures
            (final(self)@, r@) == chat_note_turn(old(self)@, chat, message_id, file_id@),
    {
        let s = self.users.get_or_create(chat);
        let voice = self.config.whisper_enabled() && s.voice_search;
        let song = self.config.audd_enabled() && s.song_recognition;
        if !voice && !song {
            return turn(
                say(
                    "⚠️ Voice features are not configured or disabled.\nCheck /settings or ask your admin to add API keys.".to_owned(),
                ),
                Task::Done,
            );
        }
        let key = write_signed(message_id as i64);
        let buttons = choice_buttons(
            voice,
            "🗣️ Search what I said",
            cat2(TRANSCRIBE, key.as_str()),
            song,
            "🎵 Recognize the song",
            cat2(RECOGNIZE, key.as_str()),
        );
        self.pending_voices.insert(key, file_id.to_owned());
        let act = Act::Send {
            slot: Slot::Status,
            text: "🎤 What should I do with this voice note?".to_owned(),
            keyboard: Keyboard::Inline(buttons),
        };
        turn(act, Task::Done)
    }
}

// ---- Buttons under messages ----------------------------------------------------------------

/// A voice note is worked on, where it is still there.
pub open spec fn chosen_voice_turn(
    voices: Map<Seq<char>, Seq<char>>,
    key: Seq<char>,
    purpose: Purpose,
) -> TurnV {
    if voices.contains_key(key) {
        turn_of(
            shows(Slot::Status, "⏳ Processing voice note..."@),
            Task::Fetch(FetchTask { file_id: voices[key], purpose, origin: Origin::Callback }),
        )
    } else {
        turn_of(
            shows(Slot::Status, "❌ Voice note expired. Please send it again."@),
            Task::Done,
        )
    }
}

/// How the bot reacts to the press of a button under a message. Where the press comes without data
/// or without its message, nothing is done.
pub open spec fn callback_turn(
    voices: Map<Seq<char>, Seq<char>>,
    data: Option<Seq<char>>,
    has_message: bool,
) -> TurnV {
    match data {
        None => quiet(Task::Done),
        Some(data) => if !has_message {
            quiet(Task::Done)
        } else {
            match callback_of(data) {
                Callback::Cancel => turn_of(shows(Slot::Status, "Cancelled."@), Task::Done),
                Callback::Download(url) => turn_of(
                    shows(Slot::Status, "⏳ Queuing download..."@),
                    Task::Queue(
                        QueueTask {
                            url,
                            done: "✅ Added to queue!\n"@ + url,
                            failed: "❌ Failed: "@,
                        },
                    ),
                ),
                Callback::Transcribe(key) => chosen_voice_turn(voices, key, Purpose::Transcribe),
                Callback::Recognize(key) => chosen_voice_turn(voices, key, Purpose::Recognize),
                Callback::Unknown => quiet(Task::Done),
            }
        },
    }
}

fn change_status(text: String) -> (r: Act)
    ensures
        r@ == shows(Slot::Status, text@),
{
    Act::Edit { slot: Slot::Status, text, keyboard: Keyboard::Bare }
}

impl BotState {
    fn choose_voice(&self, key: &str, purpose: Purpose) -> (r: Turn)
        ensures
            r@ == chosen_voice_turn(self@.voices, key@, purpose),
    {
        match self.pending_voices.get(key) {
            Some(file_id) => turn(
                change_status("⏳ Processing voice note...".to_owned()),
                Task::Fetch(FetchTask { file_id, purpose, origin: Origin::Callback }),
            ),
            None => turn(
                change_status("❌ Voice note expired. Please send it again.".to_owned()),
                Task::Done,
            ),
        }
    }

    /// Reacts to the press of a button under a message.
    pub fn handle_callback(&self, data: Option<&str>, has_message: bool) -> (r: Turn)
        ensures
            r@ == callback_turn(
                self@.voices,
                match data {
                    Some(d) => Some(d@),
                    None => None,
                },
                has_message,
            ),
    {
        let data = match data {
            Some(data) => data,
            None => return silent(Task::Done),
        };
        if !has_message {
            return silent(Task::Done);
        }
        match read_callback(data) {
            Callback::Cancel => turn(change_status("Cancelled.".to_owned()), Task::Done),
            Callback::Download(url) => {
                let done = cat2("✅ Added to queue!\n", url.as_str());
                let task = QueueTask { url, done, failed: "❌ Failed: ".to_owned() };
                turn(change_status("⏳ Queuing download...".to_owned()), Task::Queue(task))
            },
            Callback::Transcribe(key) => self.choose_voice(key.as_str(), Purpose::Transcribe),
            Callback::Recognize(key) => self.choose_voice(key.as_str(), Purpose::Recognize),
            Callback::Unknown => silent(Task::Done),
        }
    }
}

// ---- Laws ----------------------------------------------------------------------------------

/// The buttons of a voice note fetch this file.
pub open spec fn finds_its_note(
    voices: Map<Seq<char>, Seq<char>>,
    message_id: i32,
    file_id: Seq<char>,
) -> bool {
    let key = voice_key(message_id);
    &&& callback_turn(voices, Some(TRANSCRIBE@ + key), true).task == TaskV::Fetch(
        FetchTask { file_id, purpose: Purpose::Transcribe, origin: Origin::Callback },
    )
    &&& callback_turn(voices, Some(RECOGNIZE@ + key), true).task == TaskV::Fetch(
        FetchTask { file_id, purpose: Purpose::Recognize, origin: Origin::Callback },
    )
}

/// A voice note that comes while its features work stays within reach: pressing one of its buttons
/// fetches the file of that very note.
pub proof fn voice_buttons_find_their_note(
    state: BotStateV,
    user: i64,
    message_id: i32,
    file_id: Seq<char>,
)
    requires
        ({
            let s = settings_of(state.users, user);
            voice_works(s, state.config) || recognition_works(s, state.config)
        }),
    ensures
        ({
            let s = settings_of(state.users, user);
            let sent = message_turn(state, user, message_id, Incoming::Voice(file_id)).0.voices;
            let known = knowing(state, user);
            let offered = voice_note_turn(known, s, message_id, file_id).0.voices;
            finds_its_note(sent, message_id, file_id) && finds_its_note(
                offered,
                message_id,
                file_id,
            )
        }),
{
    settings_are_per_user(state.users, user, settings_of(state.users, user), user);
    inline_buttons_work(voice_key(message_id));
}

/// The data of the buttons of a voice note stays far below the 64 bytes that Telegram allows.
pub proof fn voice_button_data_is_short(message_id: i32)
    ensures
        encode_utf8(TRANSCRIBE@ + voice_key(message_id)).len() <= 64,
        encode_utf8(RECOGNIZE@ + voice_key(message_id)).len() <= 64,
{
    reveal_strlit("vt:");
    reveal_strlit("vr:");
    reveal_strlit("-");
    let n: nat = if message_id < 0 {
        (-message_id) as nat
    } else {
        message_id as nat
    };
    assert(vstd::arithmetic::power::pow(10, 10) == 10000000000) by {
        reveal_with_fuel(vstd::arithmetic::power::pow, 11);
    }
    decimals_are_short(n, 10);
    let key = voice_key(message_id);
    assert forall|i: int| 0 <= i < key.len() implies (#[trigger] key[i] as u32) < 128 by {
        if message_id < 0 && i > 0 {
            assert(key[i] == decimal(n)[i - 1]);
        }
    }
    is_ascii_chars_encode_utf8(TRANSCRIBE@ + key);
    is_ascii_chars_encode_utf8(RECOGNIZE@ + key);
}

/// What is said in a chat, and by whom, takes no pending voice note away: it stays as it was unless
/// another voice note comes under the same number.
pub proof fn voice_notes_stay(
    state: BotStateV,
    user: i64,
    message_id: i32,
    incoming: IncomingV,
    kept: i32,
)
    requires
        state.voices.contains_key(voice_key(kept)),
        incoming is Voice ==> kept != message_id,
    ensures
        ({
            let voices = message_turn(state, user, message_id, incoming).0.voices;
            &&& voices.contains_key(voice_key(kept))
            &&& voices[voice_key(kept)] == state.voices[voice_key(kept)]
        }),
{
    if voice_key(kept) == voice_key(message_id) {
        numbers_are_written_apart(kept as int, message_id as int);
    }
}

/// A voice note is offered to no service that is not configured or that the user has turned off.
pub proof fn voice_features_are_optional(
    state: BotStateV,
    user: i64,
    message_id: i32,
    file_id: Seq<char>,
)
    requires
        ({
            let s = settings_of(state.users, user);
            !voice_works(s, state.config) && !recognition_works(s, state.config)
        }),
    ensures
        ({
            let (after, turn) = message_turn(state, user, message_id, Incoming::Voice(file_id));
            &&& after == knowing(state, user)
            &&& turn == preceded(
                ActV::SaveUsers,
                after_exit(turn_of(says(VOICE_OFF@), Task::Done)),
            )
        }),
{
    settings_are_per_user(state.users, user, settings_of(state.users, user), user);
}

/// Where the administrator has locked the quality, no message changes it.
pub proof fn locked_quality_stays(
    state: BotStateV,
    user: i64,
    message_id: i32,
    incoming: IncomingV,
)
    requires
        state.config.deemix_bitrate_lock,
    ensures
        message_turn(state, user, message_id, incoming).0.bitrate == state.bitrate,
{
}

/// Only the quality button changes the quality, and a change holds for everybody: links are queued
/// in the new quality whoever sends them.
pub proof fn quality_changes_for_everybody(
    state: BotStateV,
    user: i64,
    message_id: i32,
    text: Seq<char>,
)
    requires
        !state.config.deemix_bitrate_lock,
    ensures
        message_turn(state, user, message_id, Incoming::Text(text)).0.bitrate == if press_of(
            trimmed(text),
        ) == Press::ChangeQuality {
            quality_after(state.bitrate)
        } else {
            state.bitrate
        },
{
}

/// A message changes the settings of nobody but the user who sent it, and the configuration never.
pub proof fn messages_touch_only_their_user(
    state: BotStateV,
    user: i64,
    message_id: i32,
    incoming: IncomingV,
    other: i64,
)
    requires
        other != user,
    ensures
        ({
            let after = message_turn(state, user, message_id, incoming).0;
            &&& settings_of(after.users, other) == settings_of(state.users, other)
            &&& after.config == state.config
        }),
{
    let s = settings_of(state.users, user);
    let known = knowing(state, user);
    settings_are_per_user(state.users, user, s, other);
    if let Incoming::Text(text) = incoming {
        if let Press::Turn(which) = press_of(trimmed(text)) {
            let t = toggled(settings_of(known.users, user), which);
            settings_are_per_user(known.users, user, t, other);
        }
        settings_are_per_user(known.users, user, registered(s), other);
    }
}

/// Whoever sends a message is known from then on, and the store of users stays free of doubles.
pub proof fn senders_are_known(
    state: BotStateV,
    user: i64,
    message_id: i32,
    incoming: IncomingV,
)
    requires
        distinct(state.users),
    ensures
        ({
            let after = message_turn(state, user, message_id, incoming).0;
            is_known(after.users, user) && distinct(after.users)
        }),
{
    let known = knowing(state, user);
    let s = settings_of(state.users, user);
    settings_are_per_user(state.users, user, s, user);
    users_stay_distinct(state.users, user, s);
    if let Incoming::Text(text) = incoming {
        if let Press::Turn(which) = press_of(trimmed(text)) {
            let t = toggled(settings_of(known.users, user), which);
            settings_are_per_user(known.users, user, t, user);
            users_stay_distinct(known.users, user, t);
        }
        settings_are_per_user(known.users, user, registered(s), user);
        users_stay_distinct(known.users, user, registered(s));
    }
}

/// Whoever registers hears of every restart from then on, and nobody else comes to hear of it. The
/// command and the text do the same.
pub proof fn registered_users_are_notified(
    state: BotStateV,
    user: i64,
    message_id: i32,
    text: Seq<char>,
    other: i64,
)
    requires
        distinct(state.users),
        trimmed(text) == REGISTER@,
        other != user,
    ensures
        ({
            let (after, turn) = command_turn(state, user, Command::Register);
            let (said, answer) = message_turn(state, user, message_id, Incoming::Text(text));
            &&& after.users == with_settings(
                state.users,
                user,
                registered(settings_of(state.users, user)),
            )
            &&& said == after
            &&& turn.acts[0] == ActV::SaveUsers && turn.task is Done
            &&& answer.acts[0] == ActV::SaveUsers && answer.task is Done
            &&& notified(after.users).contains(user)
            &&& notified(after.users).no_duplicates()
            &&& notified(after.users).contains(other) <==> notified(state.users).contains(other)
        }),
{
    menu_buttons_work();
    let s = settings_of(state.users, user);
    let after = command_turn(state, user, Command::Register).0;
    settings_are_per_user(state.users, user, registered(s), user);
    settings_are_per_user(state.users, user, registered(s), other);
    known_users_get_settings(state.users, user, registered(s));
    users_stay_distinct(state.users, user, registered(s));
    only_the_willing_are_notified(after.users, user);
    only_the_willing_are_notified(after.users, other);
    only_the_willing_are_notified(state.users, other);
    nobody_is_notified_twice(after.users);
    others_stay_known(state.users, user, registered(s), other);
}

/// A setting that is turned from the settings shows its new state, and turning it again brings the
/// old one back.
pub proof fn settings_turn_back(state: BotStateV, user: i64, which: Toggle)
    ensures
        ({
            let once = toggle_turn(state, user, which).0;
            let twice = toggle_turn(once, user, which).0;
            &&& is_on(settings_of(once.users, user), which) == !is_on(
                settings_of(state.users, user),
                which,
            )
            &&& settings_of(twice.users, user) == settings_of(state.users, user)
        }),
{
    let once = toggle_turn(state, user, which).0;
    let t = toggled(settings_of(state.users, user), which);
    settings_are_per_user(state.users, user, t, user);
    settings_are_per_user(once.users, user, toggled(t, which), user);
    toggling_twice_restores(settings_of(state.users, user), which);
}

/// Every result that is offered can be queued: its button asks for its link, which is then queued in
/// the current quality. The last button ends the conversation.
pub proof fn results_can_be_queued(
    voices: Map<Seq<char>, Seq<char>>,
    task: SearchTask<Seq<char>>,
    list: Seq<FoundV>,
    i: int,
)
    requires
        0 <= i < list.len(),
        task.wish is Offer,
    ensures
        ({
            let shown = search_turn(task, Ok(list)).acts[0];
            &&& shown matches ActV::Edit { keyboard: KeyboardV::Inline(rows), .. }
            &&& rows.len() == list.len() + 1
            &&& callback_turn(voices, Some(rows[i][0].data), true).task matches Task::Queue(queue)
            &&& queue.url == list[i].link
            &&& callback_turn(voices, Some(rows.last()[0].data), true) == turn_of(
                shows(Slot::Status, "Cancelled."@),
                Task::Done,
            )
        }),
{
    result_buttons_download(icon_of(task.wish->icon), list);
}

/// A Deezer link that is sent is queued at once, as it stands, whoever sends it.
pub proof fn sent_deezer_links_are_queued(
    state: BotStateV,
    user: i64,
    message_id: i32,
    text: Seq<char>,
    host: Seq<char>,
    lang: Seq<char>,
    kind: Seq<char>,
    number: Seq<char>,
)
    requires
        trimmed(text) == host + lang + kind + "/"@ + number,
        is_deezer_host(host),
        is_language(lang),
        is_deezer_kind(kind),
        number.len() > 0,
        all_digits(number),
    ensures
        ({
            let turn = message_turn(state, user, message_id, Incoming::Text(text)).1;
            &&& turn.acts == seq![ActV::SaveUsers, says("⏳ Queuing "@ + kind + "..."@)]
            &&& turn.task matches Task::Queue(queue)
            &&& queue.url == trimmed(text)
            &&& queue_turn(queue, Ok(())) == turn_of(
                shows(Slot::Status, "✅ "@ + capitalized(kind) + " added to queue!"@),
                Task::Done,
            )
        }),
{
    reveal_strlit("http://deezer.com/");
    reveal_strlit("https://deezer.com/");
    reveal_strlit("http://www.deezer.com/");
    reveal_strlit("https://www.deezer.com/");
    let link = trimmed(text);
    reveal_strlit("/register");
    assert(link[0] == host[0]);
    plain_texts_press_nothing(link);
    deezer_links_count(host, lang, kind, number);
    let turn = message_turn(state, user, message_id, Incoming::Text(text)).1;
    assert(turn.acts =~= seq![ActV::SaveUsers, says("⏳ Queuing "@ + kind + "..."@)]);
}

/// A Spotify link that is sent is looked up, whoever sends it.
pub proof fn sent_spotify_links_are_looked_up(
    state: BotStateV,
    user: i64,
    message_id: i32,
    text: Seq<char>,
    scheme: Seq<char>,
    address: Seq<char>,
    id: Seq<char>,
)
    requires
        trimmed(text) == scheme + address + id,
        scheme == "http://"@ || scheme == "https://"@,
        address == "open.spotify.com/track/"@ || address == "open.spotify.com/album/"@,
        id.len() > 0,
        forall|i: int| 0 <= i < id.len() ==> is_alphanumeric(#[trigger] id[i]),
    ensures
        message_turn(state, user, message_id, Incoming::Text(text)).1 == preceded(
            ActV::SaveUsers,
            spotify_start(trimmed(text)),
        ),
{
    reveal_strlit("http://");
    reveal_strlit("https://");
    reveal_strlit("/register");
    assert(trimmed(text)[0] == scheme[0]);
    plain_texts_press_nothing(trimmed(text));
    spotify_links_count(scheme, address, id);
}

/// A chat that waits for something stops waiting once it is answered. Only an ARL is asked for again
/// where it is no text or looks too short.
pub proof fn answers_end_the_waiting(state: State, incoming: IncomingV)
    requires
        state != State::Idle,
    ensures
        answer_turn(state, incoming) is Some,
        state != State::AwaitingArl ==> answer_turn(state, incoming)->0.acts[0]
            == ActV::ExitDialogue,
        state == State::AwaitingArl ==> (answer_turn(state, incoming)->0.acts[0]
            == ActV::ExitDialogue <==> (text_of(incoming) matches Some(arl) && encode_utf8(arl).len()
            >= MIN_ARL_LEN)),
{
}

/// A text that presses no button is a link or a search: with a Deezer link it is queued, with a
/// Spotify link looked up, and with neither it is searched for as it stands.
pub proof fn texts_ask_for_music(
    state: BotStateV,
    user: i64,
    message_id: i32,
    text: Seq<char>,
)
    requires
        press_of(trimmed(text)) == Press::Nothing,
    ensures
        ({
            let (after, turn) = message_turn(state, user, message_id, Incoming::Text(text));
            &&& after == knowing(state, user)
            &&& turn == preceded(ActV::SaveUsers, free_text_turn(trimmed(text)))
            &&& link_in(trimmed(text)) == Link::Nothing ==> (turn.task matches Task::Search(search)
                && search.query == trimmed(text) && search.kind == SearchKind::Track)
            &&& link_in(trimmed(text)) == Link::Spotify ==> (turn.task matches Task::Spotify(lookup)
                && lookup.url == trimmed(text))
            &&& link_in(trimmed(text)) == Link::DeezerShort ==> (turn.task matches Task::ShortLink(
                short,
            ) && short.url == trimmed(text))
            &&& link_in(trimmed(text)) == Link::Deezer ==> (turn.task matches Task::Queue(queue)
                && queue.url == trimmed(text))
        }),
{
}

// ---- Laws of questions and answers ---------------------------------------------------------

/// The chat waits for something once the turn is taken, and for nothing from outside.
pub open spec fn awaits(turn: TurnV, state: State) -> bool {
    turn.acts.contains(ActV::SetState(state)) && turn.task is Done
}

proof fn asking_awaits(state: State, question: Seq<char>)
    ensures
        awaits(preceded(ActV::SaveUsers, asks(state, question)), state),
{
    let turn = preceded(ActV::SaveUsers, asks(state, question));
    assert(turn.acts[1] == ActV::SetState(state));
}

/// Each command asks for what it is there for: `/search` for a track, `/album` for an album, `/dl`
/// for a Deezer link, `/sp` for a Spotify link and `/updatearl` for an ARL. `/status` asks deemix
/// for its queue.
pub proof fn commands_ask_for_what_they_name(state: BotStateV, user: i64)
    ensures
        text_in(command_turn(state, user, Command::Search).1.acts[2])
            == "🔍 What song or artist are you looking for?"@,
        text_in(command_turn(state, user, Command::Album).1.acts[2])
            == "💿 What album are you looking for?"@,
        text_in(command_turn(state, user, Command::Dl).1.acts[2]) == "🎵 Send me a Deezer URL:"@,
        text_in(command_turn(state, user, Command::Sp).1.acts[2])
            == "🟢 Send me a Spotify track or album link:"@,
        text_in(command_turn(state, user, Command::Updatearl).1.acts[2])
            == "Please send your new Deezer ARL:"@,
        awaits(command_turn(state, user, Command::Search).1, State::AwaitingSearch),
        awaits(command_turn(state, user, Command::Album).1, State::AwaitingAlbum),
        awaits(command_turn(state, user, Command::Dl).1, State::AwaitingDl),
        awaits(command_turn(state, user, Command::Sp).1, State::AwaitingSpotify),
        awaits(command_turn(state, user, Command::Updatearl).1, State::AwaitingArl),
        command_turn(state, user, Command::Status).1.task == TaskV::Status(
            StatusTask { by_button: false },
        ),
{
    asking_awaits(State::AwaitingSearch, ASK_SEARCH@);
    asking_awaits(State::AwaitingAlbum, ASK_ALBUM@);
    asking_awaits(State::AwaitingDl, ASK_DEEZER@);
    asking_awaits(State::AwaitingSpotify, ASK_SPOTIFY@);
    asking_awaits(State::AwaitingArl, ASK_ARL@);
}

/// No command but `/register` changes a setting, and none changes the quality or the voice notes.
pub proof fn commands_leave_the_rest_alone(state: BotStateV, user: i64, cmd: Command, other: i64)
    ensures
        ({
            let after = command_turn(state, user, cmd).0;
            &&& after.bitrate == state.bitrate && after.voices == state.voices
            &&& after.config == state.config
            &&& is_known(after.users, user)
            &&& cmd != Command::Register || other != user ==> settings_of(after.users, other)
                == settings_of(state.users, other)
            &&& cmd == Command::Register ==> settings_of(after.users, user) == (UserSettings {
                restart_notifications: true,
                ..settings_of(state.users, user)
            })
            &&& command_turn(state, user, cmd).1.acts[0] == ActV::SaveUsers
        }),
{
    let s = settings_of(state.users, user);
    settings_are_per_user(state.users, user, registered(s), other);
    settings_are_per_user(state.users, user, registered(s), user);
}

/// The menu and the settings come with their buttons, as they stand for the user.
pub proof fn commands_show_their_buttons(state: BotStateV, user: i64)
    ensures
        ({
            let s = settings_of(state.users, user);
            let start = command_turn(state, user, Command::Start).1;
            let menu = command_turn(state, user, Command::Menu).1;
            let settings = command_turn(state, user, Command::Settings).1;
            &&& text_in(start.acts[1]) == WELCOME@ && text_in(menu.acts[1]) == CHOOSE@
            &&& text_in(settings.acts[1]) == YOUR_SETTINGS@
            &&& text_in(command_turn(state, user, Command::Help).1.acts[1]) == GUIDE@
            &&& start.acts[1] matches ActV::Send { keyboard: KeyboardV::Reply(rows), .. } && rows
                == main_rows(s, state.config)
            &&& menu.acts[1] matches ActV::Send { keyboard: KeyboardV::Reply(rows), .. } && rows
                == main_rows(s, state.config)
            &&& settings.acts[1] matches ActV::Send { keyboard: KeyboardV::Reply(rows), .. } && rows
                == settings_rows(s, state.config, state.bitrate)
        }),
{
}

/// What is sent in answer is taken for what was asked for, but for the white space around it: a name
/// is searched for as a track or as an album, a Spotify link is looked up, a Deezer link is queued,
/// and a long enough ARL is tried.
pub proof fn answers_are_taken_for_what_was_asked(text: Seq<char>)
    ensures
        ({
            let said = IncomingV::Text(text);
            &&& answer_turn(State::AwaitingSearch, said) matches Some(turn) && {
                &&& turn.task matches Task::Search(search)
                &&& search.query == trimmed(text) && search.kind == SearchKind::Track
                &&& search.wish matches Wish::Offer { icon, heading } && icon == SearchKind::Track
            }
            &&& answer_turn(State::AwaitingAlbum, said) matches Some(turn) && {
                &&& turn.task matches Task::Search(search)
                &&& search.query == trimmed(text) && search.kind == SearchKind::Album
                &&& search.wish matches Wish::Offer { icon, heading } && icon == SearchKind::Album
            }
            &&& answer_turn(State::AwaitingSpotify, said) matches Some(turn) && {
                &&& turn.task matches Task::Spotify(lookup)
                &&& lookup.url == trimmed(text)
            }
            &&& answer_turn(State::AwaitingDl, said) matches Some(turn) && {
                &&& crate::links::deezer_kind(trimmed(text)) is Some ==> (turn.task matches Task::Queue(
                    queue,
                ) && queue.url == trimmed(text))
                &&& crate::links::deezer_kind(trimmed(text)) is None ==> turn.task is Done
            }
            &&& answer_turn(State::AwaitingArl, said) matches Some(turn) && {
                &&& encode_utf8(trimmed(text)).len() >= 100 ==> (turn.task matches Task::Login(login)
                    && login.arl == trimmed(text))
                &&& encode_utf8(trimmed(text)).len() < 100 ==> turn.task is Done
            }
        }),
{
}

/// A voice note that was asked for goes to what it was asked for: what is said in it is transcribed,
/// or the song in it is recognized. Anything else in its place ends the waiting.
pub proof fn asked_voice_notes_are_worked_on(file_id: Seq<char>, text: Seq<char>)
    ensures
        answer_turn(State::AwaitingVoiceTranscribe, IncomingV::Voice(file_id)) matches Some(turn)
            && turn.task == TaskV::Fetch(
            FetchTask { file_id, purpose: Purpose::Transcribe, origin: Origin::Dialogue },
        ),
        answer_turn(State::AwaitingVoiceRecognize, IncomingV::Voice(file_id)) matches Some(turn)
            && turn.task == TaskV::Fetch(
            FetchTask { file_id, purpose: Purpose::Recognize, origin: Origin::Dialogue },
        ),
        answer_turn(State::AwaitingVoiceTranscribe, IncomingV::Text(text)) matches Some(turn)
            && turn.task is Done,
        answer_turn(State::AwaitingVoiceRecognize, IncomingV::Text(text)) matches Some(turn)
            && turn.task is Done,
        answer_turn(State::Idle, IncomingV::Text(text)) is None,
{
}

proof fn labels_stay()
    ensures
        trimmed("🔍 Search a track"@) == "🔍 Search a track"@,
        trimmed("💿 Search an album"@) == "💿 Search an album"@,
        trimmed("🟢 From Spotify link"@) == "🟢 From Spotify link"@,
        trimmed("🎵 From Deezer URL"@) == "🎵 From Deezer URL"@,
        trimmed("🎤 Voice search"@) == "🎤 Voice search"@,
        trimmed("🎵 Recognize song"@) == "🎵 Recognize song"@,
        trimmed("📊 Check status"@) == "📊 Check status"@,
        trimmed("⚙️ Settings"@) == "⚙️ Settings"@,
        trimmed("🔙 Back to menu"@) == "🔙 Back to menu"@,
        trimmed("🔑 Update ARL"@) == "🔑 Update ARL"@,
{
    reveal_strlit("🔍 Search a track");
    reveal_strlit("💿 Search an album");
    reveal_strlit("🟢 From Spotify link");
    reveal_strlit("🎵 From Deezer URL");
    reveal_strlit("🎤 Voice search");
    reveal_strlit("🎵 Recognize song");
    reveal_strlit("📊 Check status");
    reveal_strlit("⚙️ Settings");
    reveal_strlit("🔙 Back to menu");
    reveal_strlit("🔑 Update ARL");
    trimmed_texts_stay("🔍 Search a track"@);
    trimmed_texts_stay("💿 Search an album"@);
    trimmed_texts_stay("🟢 From Spotify link"@);
    trimmed_texts_stay("🎵 From Deezer URL"@);
    trimmed_texts_stay("🎤 Voice search"@);
    trimmed_texts_stay("🎵 Recognize song"@);
    trimmed_texts_stay("📊 Check status"@);
    trimmed_texts_stay("⚙️ Settings"@);
    trimmed_texts_stay("🔙 Back to menu"@);
    trimmed_texts_stay("🔑 Update ARL"@);
}

/// A button of the menu does what the command of the same purpose does, whoever presses it.
pub proof fn buttons_do_what_commands_do(state: BotStateV, user: i64, message_id: i32)
    ensures
        message_turn(state, user, message_id, Incoming::Text("🔍 Search a track"@)) == command_turn(
            state,
            user,
            Command::Search,
        ),
        message_turn(state, user, message_id, Incoming::Text("💿 Search an album"@)) == command_turn(
            state,
            user,
            Command::Album,
        ),
        message_turn(state, user, message_id, Incoming::Text("🟢 From Spotify link"@))
            == command_turn(state, user, Command::Sp),
        message_turn(state, user, message_id, Incoming::Text("🎵 From Deezer URL"@)) == command_turn(
            state,
            user,
            Command::Dl,
        ),
        message_turn(state, user, message_id, Incoming::Text("⚙️ Settings"@)) == command_turn(
            state,
            user,
            Command::Settings,
        ),
        message_turn(state, user, message_id, Incoming::Text("🔙 Back to menu"@)) == command_turn(
            state,
            user,
            Command::Menu,
        ),
        message_turn(state, user, message_id, Incoming::Text("🔑 Update ARL"@)) == command_turn(
            state,
            user,
            Command::Updatearl,
        ),
        message_turn(state, user, message_id, Incoming::Text("📊 Check status"@)).1.task
            == TaskV::Status(StatusTask { by_button: true }),
{
    labels_stay();
    menu_buttons_work();
    settings_are_per_user(state.users, user, settings_of(state.users, user), user);
}

// ---- Laws of settings ----------------------------------------------------------------------

/// A button of the settings turns the setting that it shows, for the user who presses it and for
/// nobody else, and the users are stored. The settings that come back show how things stand then. A
/// feature that is not configured cannot be turned.
pub proof fn settings_buttons_turn_their_setting(
    state: BotStateV,
    user: i64,
    message_id: i32,
    text: Seq<char>,
    row: int,
)
    requires
        0 <= row < 3,
        trimmed(text) == settings_rows(
            settings_of(state.users, user),
            state.config,
            state.bitrate,
        )[row][0],
    ensures
        ({
            let s = settings_of(state.users, user);
            let (after, turn) = message_turn(state, user, message_id, Incoming::Text(text));
            let now = settings_of(after.users, user);
            let voice = state.config.openai_api_key.len() > 0 || state.config.whisper_url.len() > 0;
            let song = state.config.audd_api_key.len() > 0;
            &&& row == 0 ==> now == (UserSettings {
                restart_notifications: !s.restart_notifications,
                ..s
            })
            &&& row == 1 && voice ==> now == (UserSettings { voice_search: !s.voice_search, ..s })
            &&& row == 2 && song ==> now == (UserSettings {
                song_recognition: !s.song_recognition,
                ..s
            })
            &&& row == 1 && !voice || row == 2 && !song ==> now == s
            &&& row == 0 || row == 1 && voice || row == 2 && song ==> {
                &&& turn.acts.contains(ActV::SaveUsers)
                &&& turn.acts.last() matches ActV::Send { keyboard: KeyboardV::Reply(rows), .. }
                &&& rows == settings_rows(now, state.config, state.bitrate)
                &&& text_in(turn.acts.last()) == (if row == 0 {
                    "🔔 Restart notifications:"@
                } else if row == 1 {
                    "🎤 Voice search:"@
                } else {
                    "🎵 Song recognition:"@
                }) + " "@ + (if row == 0 && now.restart_notifications || row == 1
                    && now.voice_search || row == 2 && now.song_recognition {
                    "ON"@
                } else {
                    "OFF"@
                })
            }
            &&& row == 1 && !voice ==> text_in(turn.acts.last()) == VOICE_NO_KEY@
            &&& row == 2 && !song ==> text_in(turn.acts.last()) == SONG_NO_KEY@
            &&& turn.task is Done && after.bitrate == state.bitrate
        }),
{
    let s = settings_of(state.users, user);
    let known = knowing(state, user);
    settings_buttons_work(s, state.config, state.bitrate);
    settings_are_per_user(state.users, user, s, user);
    let which = if row == 0 {
        Toggle::RestartNotifications
    } else if row == 1 {
        Toggle::VoiceSearch
    } else {
        Toggle::SongRecognition
    };
    settings_are_per_user(known.users, user, toggled(s, which), user);
    let (after, turn) = message_turn(state, user, message_id, Incoming::Text(text));
    assert(turn.acts[0] == ActV::SaveUsers);
}

/// A tap on the quality button changes the quality for everybody to the next one, and links are
/// queued in it from then on; a locked quality stays.
pub proof fn the_quality_button_changes_the_quality(
    state: BotStateV,
    user: i64,
    message_id: i32,
    text: Seq<char>,
    url: Seq<char>,
)
    requires
        trimmed(text) == settings_rows(
            settings_of(state.users, user),
            state.config,
            state.bitrate,
        )[3][0],
    ensures
        ({
            let (after, turn) = message_turn(state, user, message_id, Incoming::Text(text));
            let next: u8 = if state.bitrate == 9 {
                3
            } else if state.bitrate == 3 {
                1
            } else {
                9
            };
            &&& state.config.deemix_bitrate_lock ==> after.bitrate == state.bitrate && text_in(
                turn.acts.last(),
            ) == LOCKED@
            &&& !state.config.deemix_bitrate_lock ==> {
                &&& after.bitrate == next
                &&& contains(text_in(turn.acts.last()), quality_name(next))
                &&& turn.acts.last() matches ActV::Send { keyboard: KeyboardV::Reply(rows), .. }
                &&& rows == settings_rows(settings_of(state.users, user), state.config, next)
            }
            &&& turn.task is Done
            &&& queued(after, url).body matches BodyV::Json(sent) && sent.at("bitrate"@).unsigned()
                == Some(after.bitrate as u64) && sent.at("url"@).text() == Some(url)
        }),
{
    let s = settings_of(state.users, user);
    settings_buttons_work(s, state.config, state.bitrate);
    settings_are_per_user(state.users, user, s, user);
    let after = message_turn(state, user, message_id, Incoming::Text(text)).0;
    requests_say_what_is_wanted(after.config.deemix_url, url, after.bitrate);
    parts_are_contained(
        "🎚️ Download quality changed to: "@,
        quality_name(after.bitrate),
        "\n\n⚠️ This affects ALL users on this server."@,
    );
}

/// A bot that starts queues links in the configured quality and on the configured server, knows the
/// stored users, and has no voice note pending.
pub proof fn bots_start_as_configured(config: ConfigV, users: UsersV, url: Seq<char>)
    ensures
        ({
            let state = started(config, users);
            &&& state.users == users && state.config == config
            &&& forall|key: Seq<char>| !(#[trigger] state.voices.contains_key(key))
            &&& queued(state, url).url == config.deemix_url + "/api/addToQueue"@
            &&& queued(state, url).body matches BodyV::Json(sent) && sent.at("bitrate"@).unsigned()
                == Some(config.deemix_bitrate as u64) && sent.at("url"@).text() == Some(url)
        }),
{
    requests_say_what_is_wanted(config.deemix_url, url, config.deemix_bitrate);
}

// ---- Laws of voice notes and buttons -------------------------------------------------------

/// Where voice search or song recognition works for the user, its button asks for a voice note for a
/// minute: the chat waits for the note, and stops waiting for that very note when the minute is
/// over. Where it does not work, the chat does not wait.
pub proof fn voice_notes_are_asked_for_where_they_work(
    state: BotStateV,
    user: i64,
    message_id: i32,
)
    ensures
        ({
            let s = settings_of(state.users, user);
            let voice = s.voice_search && (state.config.openai_api_key.len() > 0
                || state.config.whisper_url.len() > 0);
            let song = s.song_recognition && state.config.audd_api_key.len() > 0;
            let spoken = message_turn(state, user, message_id, Incoming::Text("🎤 Voice search"@)).1;
            let played = message_turn(
                state,
                user,
                message_id,
                Incoming::Text("🎵 Recognize song"@),
            ).1;
            &&& voice ==> awaits(spoken, State::AwaitingVoiceTranscribe) && (
            spoken.acts.last() matches ActV::Expire { state: end, seconds, .. } && end
                == State::AwaitingVoiceTranscribe && seconds == 60)
            &&& song ==> awaits(played, State::AwaitingVoiceRecognize) && (
            played.acts.last() matches ActV::Expire { state: end, seconds, .. } && end
                == State::AwaitingVoiceRecognize && seconds == 60)
            &&& voice ==> text_in(spoken.acts[2]) == VOICE_WANTED@ && text_in(spoken.acts.last())
                == VOICE_EXPIRED@
            &&& song ==> text_in(played.acts[2]) == SONG_WANTED@ && text_in(played.acts.last())
                == SONG_EXPIRED@
            &&& !voice ==> text_in(spoken.acts[1]) == VOICE_UNCONFIGURED@
            &&& !song ==> text_in(played.acts[1]) == SONG_UNCONFIGURED@
            &&& !voice ==> spoken.acts.len() == 2 && spoken.acts[1] is Send && spoken.task is Done
            &&& !song ==> played.acts.len() == 2 && played.acts[1] is Send && played.task is Done
        }),
{
    labels_stay();
    menu_buttons_work();
    let s = settings_of(state.users, user);
    settings_are_per_user(state.users, user, s, user);
    let spoken = message_turn(state, user, message_id, Incoming::Text("🎤 Voice search"@)).1;
    let played = message_turn(state, user, message_id, Incoming::Text("🎵 Recognize song"@)).1;
    if voice_works(s, state.config) {
        assert(spoken.acts[1] == ActV::SetState(State::AwaitingVoiceTranscribe));
    }
    if recognition_works(s, state.config) {
        assert(played.acts[1] == ActV::SetState(State::AwaitingVoiceRecognize));
    }
}

/// The buttons under a voice note are those that work for the user, and each does to that note what
/// it is there for: the one for voice search has it transcribed, the one for song recognition has the
/// song recognized, and the last one cancels.
pub proof fn voice_buttons_do_what_they_offer(
    state: BotStateV,
    user: i64,
    message_id: i32,
    file_id: Seq<char>,
)
    ensures
        ({
            let s = settings_of(state.users, user);
            let voice = s.voice_search && (state.config.openai_api_key.len() > 0
                || state.config.whisper_url.len() > 0);
            let song = s.song_recognition && state.config.audd_api_key.len() > 0;
            let first: int = if voice {
                1
            } else {
                0
            };
            let (after, turn) = message_turn(state, user, message_id, Incoming::Voice(file_id));
            voice || song ==> {
                &&& turn.acts.last() matches ActV::Send { keyboard: KeyboardV::Inline(rows), .. }
                &&& voice ==> rows[0][0].label == "🎤 Transcribe what I said"@
                &&& song ==> rows[first][0].label == "🎵 Recognize the song"@
                &&& voice ==> callback_turn(after.voices, Some(rows[0][0].data), true).task
                    == TaskV::Fetch(
                    FetchTask { file_id, purpose: Purpose::Transcribe, origin: Origin::Callback },
                )
                &&& song ==> callback_turn(after.voices, Some(rows[first][0].data), true).task
                    == TaskV::Fetch(
                    FetchTask { file_id, purpose: Purpose::Recognize, origin: Origin::Callback },
                )
                &&& rows.len() == first + (if song {
                    2int
                } else {
                    1int
                })
                &&& callback_turn(after.voices, Some(rows.last()[0].data), true).task is Done
            }
        }),
{
    let s = settings_of(state.users, user);
    let key = voice_key(message_id);
    settings_are_per_user(state.users, user, s, user);
    inline_buttons_work(key);
    voice_choices_are_those_that_work(
        voice_works(s, state.config),
        "🎤 Transcribe what I said"@,
        TRANSCRIBE@ + key,
        recognition_works(s, state.config),
        "🎵 Recognize the song"@,
        RECOGNIZE@ + key,
    );
}

/// The button of a result queues its link. A voice note that is no longer there is not fetched. A
/// press that comes without data or without its message does nothing.
pub proof fn buttons_under_messages_work(
    voices: Map<Seq<char>, Seq<char>>,
    rest: Seq<char>,
    has_message: bool,
)
    ensures
        callback_turn(voices, Some("dl:"@ + rest), true).task matches Task::Queue(queue) && queue.url
            == rest && contains(queue.done, rest),
        voices.contains_key(rest) ==> {
            &&& callback_turn(voices, Some("vt:"@ + rest), true).task matches Task::Fetch(fetch)
            &&& fetch.file_id == voices[rest] && fetch.purpose == Purpose::Transcribe
        },
        voices.contains_key(rest) ==> {
            &&& callback_turn(voices, Some("vr:"@ + rest), true).task matches Task::Fetch(fetch)
            &&& fetch.file_id == voices[rest] && fetch.purpose == Purpose::Recognize
        },
        !voices.contains_key(rest) ==> callback_turn(voices, Some("vt:"@ + rest), true).task is Done
            && callback_turn(voices, Some("vr:"@ + rest), true).task is Done,
        callback_turn(voices, Some("cancel"@), true).task is Done,
        callback_turn(voices, None, has_message) == quiet(Task::Done),
        callback_turn(voices, Some(rest), false) == quiet(Task::Done),
{
    inline_buttons_work(rest);
    let none = Seq::<char>::empty();
    parts_are_contained("✅ Added to queue!\n"@, rest, none);
    assert("✅ Added to queue!\n"@ + rest + none =~= "✅ Added to queue!\n"@ + rest);
}

// ---- Laws of texts -------------------------------------------------------------------------

/// The name of a song that is sent is searched for as a track, as it stands but for the white space
/// around it.
pub proof fn sent_names_are_searched_for(
    state: BotStateV,
    user: i64,
    message_id: i32,
    text: Seq<char>,
)
    requires
        trimmed(text).len() == 0 || (trimmed(text)[0] as u32) < 128,
        trimmed(text) != "/register"@,
        !trimmed(text).contains(':'),
    ensures
        ({
            let (after, turn) = message_turn(state, user, message_id, Incoming::Text(text));
            &&& turn.task matches Task::Search(search)
            &&& search.query == trimmed(text)
            &&& search.kind == SearchKind::Track
            &&& search.wish matches Wish::Offer { icon, heading } && icon == SearchKind::Track
            &&& after == knowing(state, user)
        }),
{
    plain_texts_press_nothing(trimmed(text));
    plain_names_are_no_links(trimmed(text));
}

/// A Spotify link that is sent is looked up as what it is, a track or an album; a short Deezer link
/// is followed.
pub proof fn sent_links_are_taken_for_what_they_are(
    state: BotStateV,
    user: i64,
    message_id: i32,
    text: Seq<char>,
    scheme: Seq<char>,
    rest: Seq<char>,
)
    requires
        scheme == "http://"@ || scheme == "https://"@,
        rest.len() > 0,
        forall|i: int| 0 <= i < rest.len() ==> is_alphanumeric(#[trigger] rest[i]),
    ensures
        ({
            let turn = message_turn(state, user, message_id, Incoming::Text(text)).1;
            &&& trimmed(text) == scheme + "open.spotify.com/track/"@ + rest ==> turn.task
                == TaskV::Spotify(SpotifyTask { url: trimmed(text), kind: SearchKind::Track })
            &&& trimmed(text) == scheme + "open.spotify.com/album/"@ + rest ==> turn.task
                == TaskV::Spotify(SpotifyTask { url: trimmed(text), kind: SearchKind::Album })
            &&& trimmed(text) == scheme + "link.deezer.com/s/"@ + rest ==> turn.task
                == TaskV::ShortLink(ShortLinkTask { url: trimmed(text) })
        }),
{
    reveal_strlit("http://");
    reveal_strlit("https://");
    reveal_strlit("/register");
    albums_are_no_tracks(scheme, rest);
    spotify_links_count(scheme, "open.spotify.com/track/"@, rest);
    spotify_links_count(scheme, "open.spotify.com/album/"@, rest);
    assert(is_alphanumeric(rest[0]));
    assert(!rest.contains(':')) by {
        if rest.contains(':') {
            let k = choose|k: int| 0 <= k < rest.len() && rest[k] == ':';
            assert(is_alphanumeric(rest[k]));
        }
    }
    short_links_count(scheme, rest);
    let link = trimmed(text);
    if link == scheme + "open.spotify.com/track/"@ + rest || link == scheme
        + "open.spotify.com/album/"@ + rest || link == scheme + "link.deezer.com/s/"@ + rest {
        assert(link[0] == scheme[0]);
        plain_texts_press_nothing(link);
    }
}

/// What is offered for a voice note is offered alike where the note alone is at hand: the buttons are
/// those that work in the chat, and each does to that note what it is there for.
pub proof fn offered_choices_do_what_they_offer(
    state: BotStateV,
    chat: i64,
    message_id: i32,
    file_id: Seq<char>,
)
    ensures
        ({
            let s = settings_of(state.users, chat);
            let voice = s.voice_search && (state.config.openai_api_key.len() > 0
                || state.config.whisper_url.len() > 0);
            let song = s.song_recognition && state.config.audd_api_key.len() > 0;
            let first: int = if voice {
                1
            } else {
                0
            };
            let (after, turn) = chat_note_turn(state, chat, message_id, file_id);
            &&& turn.task is Done
            &&& settings_of(after.users, chat) == s && is_known(after.users, chat)
            &&& after.bitrate == state.bitrate && after.config == state.config
            &&& !voice && !song ==> after.voices == state.voices && (turn.acts[0] matches ActV::Send {
                keyboard,
                ..
            } && keyboard is Bare)
            &&& voice || song ==> {
                &&& turn.acts.last() matches ActV::Send { keyboard: KeyboardV::Inline(rows), .. }
                &&& voice ==> rows[0][0].label == "🗣️ Search what I said"@
                &&& song ==> rows[first][0].label == "🎵 Recognize the song"@
                &&& voice ==> callback_turn(after.voices, Some(rows[0][0].data), true).task
                    == TaskV::Fetch(
                    FetchTask { file_id, purpose: Purpose::Transcribe, origin: Origin::Callback },
                )
                &&& song ==> callback_turn(after.voices, Some(rows[first][0].data), true).task
                    == TaskV::Fetch(
                    FetchTask { file_id, purpose: Purpose::Recognize, origin: Origin::Callback },
                )
                &&& callback_turn(after.voices, Some(rows.last()[0].data), true).task is Done
            }
        }),
{
    let s = settings_of(state.users, chat);
    settings_are_per_user(state.users, chat, s, chat);
    let key = voice_key(message_id);
    inline_buttons_work(key);
    voice_choices_are_those_that_work(
        voice_works(s, state.config),
        "🗣️ Search what I said"@,
        TRANSCRIBE@ + key,
        recognition_works(s, state.config),
        "🎵 Recognize the song"@,
        RECOGNIZE@ + key,
    );
}

/// A voice note is kept under the number of its message.
pub proof fn voice_notes_are_kept_by_their_number(message_id: i32)
    ensures
        message_id >= 0 ==> voice_key(message_id) == decimal(message_id as nat),
        message_id < 0 ==> voice_key(message_id) == "-"@ + decimal((-message_id) as nat),
{
}

/// A message that holds neither a text nor a voice note asks for nothing, whether the chat waits for
/// a text or not.
pub proof fn other_messages_ask_for_nothing(
    state: BotStateV,
    user: i64,
    message_id: i32,
    file_id: Seq<char>,
)
    ensures
        message_turn(state, user, message_id, Incoming::Other) == (
            knowing(state, user),
            TurnV { acts: seq![ActV::SaveUsers], task: Task::Done },
        ),
        answer_turn(State::AwaitingSearch, Incoming::Other)->0.task is Done,
        answer_turn(State::AwaitingSearch, Incoming::Voice(file_id))->0.task is Done,
        answer_turn(State::AwaitingAlbum, Incoming::Voice(file_id))->0.task is Done,
        answer_turn(State::AwaitingDl, Incoming::Voice(file_id))->0.task is Done,
        answer_turn(State::AwaitingSpotify, Incoming::Voice(file_id))->0.task is Done,
        answer_turn(State::AwaitingArl, Incoming::Voice(file_id))->0.task is Done,
{
    let turn = message_turn(state, user, message_id, Incoming::Other).1;
    assert(turn.acts =~= seq![ActV::SaveUsers]);
}

} // verus!
