//! Keyboards: the buttons that the bot offers, and what pressing them means.
use vstd::prelude::*;

use crate::config::{Config, ConfigV};
use crate::deemix::{results, Found, FoundV};
use crate::text::{cat2, cat3, cat4, cat5, clip, clipped, has_prefix, same, starts_with};
use crate::text::{contained_parts_stay, contains, parts_are_contained, strip_prefix, texts};
use crate::users::{Toggle, UserSettings};

verus! {

// ---- Quality -------------------------------------------------------------------------------

/// The name of a quality.
pub open spec fn quality_name(bitrate: u8) -> Seq<char> {
    if bitrate == 9 {
        "FLAC (lossless)"@
    } else if bitrate == 3 {
        "MP3 320kbps"@
    } else if bitrate == 1 {
        "MP3 128kbps"@
    } else {
        "Unknown"@
    }
}

/// Gives the name of a quality.
pub fn bitrate_label(bitrate: u8) -> (r: &'static str)
    ensures
        r@ == quality_name(bitrate),
{
    match bitrate {
        9 => "FLAC (lossless)",
        3 => "MP3 320kbps",
        1 => "MP3 128kbps",
        _ => "Unknown",
    }
}

/// The quality that comes after another: from FLAC to MP3 320 to MP3 128 and back to FLAC, and to
/// FLAC from anything else.
pub open spec fn quality_after(bitrate: u8) -> u8 {
    if bitrate == 9 {
        3
    } else if bitrate == 3 {
        1
    } else {
        9
    }
}

/// Gives the quality that comes after another.
pub fn next_bitrate(current: u8) -> (r: u8)
    ensures
        r == quality_after(current),
{
    match current {
        9 => 3,
        3 => 1,
        _ => 9,
    }
}

/// The tap on the quality button cycles through the three qualities: whatever the quality was, one
/// tap leads to one of them, and from there three taps lead back.
pub proof fn quality_cycles(bitrate: u8)
    ensures
        ({
            let q = quality_after(bitrate);
            &&& q == 9 || q == 3 || q == 1
            &&& quality_after(quality_after(quality_after(q))) == q
            &&& quality_after(q) != q && quality_after(quality_after(q)) != q
        }),
{
}

// ---- Labels --------------------------------------------------------------------------------

pub const SEARCH_TRACK: &'static str = "🔍 Search a track";

pub const SEARCH_ALBUM: &'static str = "💿 Search an album";

pub const FROM_SPOTIFY: &'static str = "🟢 From Spotify link";

pub const FROM_DEEZER: &'static str = "🎵 From Deezer URL";

pub const VOICE_SEARCH: &'static str = "🎤 Voice search";

pub const RECOGNIZE_SONG: &'static str = "🎵 Recognize song";

pub const CHECK_STATUS: &'static str = "📊 Check status";

pub const SETTINGS: &'static str = "⚙️ Settings";

pub const BACK_TO_MENU: &'static str = "🔙 Back to menu";

pub const UPDATE_ARL: &'static str = "🔑 Update ARL";

pub const HELP: &'static str = "ℹ️ Help";

pub const NOTIFICATIONS_ON: &'static str = "🔔 Restart notifications:";

pub const NOTIFICATIONS_OFF: &'static str = "🔕 Restart notifications:";

pub const VOICE_TOGGLE: &'static str = "🎤 Voice search:";

pub const QUALITY_OPEN: &'static str = "🎚️ Quality:";

pub const QUALITY_LOCKED: &'static str = "🔒 Quality:";

pub const RECOGNITION_TOGGLE: &'static str = "🎵 Song recognition:";

/// The text that turns restart notifications on.
pub const REGISTER: &'static str = "/register";

/// The texts of each row.
pub open spec fn rows(list: Seq<Vec<String>>) -> Seq<Seq<Seq<char>>> {
    list.map_values(|row: Vec<String>| texts(row@))
}

/// The word for a setting.
pub open spec fn on_off(on: bool) -> Seq<char> {
    if on {
        "ON"@
    } else {
        "OFF"@
    }
}

/// Gives the word for a setting.
pub fn on_off_word(on: bool) -> (r: &'static str)
    ensures
        r@ == on_off(on),
{
    if on {
        "ON"
    } else {
        "OFF"
    }
}

// ---- The settings keyboard -----------------------------------------------------------------

/// Voice search works for a user: it is configured, and the user has it on.
pub open spec fn voice_works(s: UserSettings, config: ConfigV) -> bool {
    config.whisper() && s.voice_search
}

/// Song recognition works for a user: it is configured, and the user has it on.
pub open spec fn recognition_works(s: UserSettings, config: ConfigV) -> bool {
    config.audd() && s.song_recognition
}

/// The label of the quality button; a lock shows that the quality cannot be changed.
pub open spec fn quality_button(config: ConfigV, bitrate: u8) -> Seq<char> {
    if config.deemix_bitrate_lock {
        QUALITY_LOCKED@ + " "@ + quality_name(bitrate) + " (locked)"@
    } else {
        QUALITY_OPEN@ + " "@ + quality_name(bitrate) + " (tap to change)"@
    }
}

/// The label of the button for restart notifications.
pub open spec fn notification_button(s: UserSettings) -> Seq<char> {
    if s.restart_notifications {
        NOTIFICATIONS_ON@ + " "@ + "ON"@
    } else {
        NOTIFICATIONS_OFF@ + " "@ + "OFF"@
    }
}

/// The buttons of the settings.
pub open spec fn settings_rows(s: UserSettings, config: ConfigV, bitrate: u8) -> Seq<
    Seq<Seq<char>>,
> {
    seq![
        seq![notification_button(s)],
        seq![VOICE_TOGGLE@ + " "@ + on_off(voice_works(s, config))],
        seq![RECOGNITION_TOGGLE@ + " "@ + on_off(recognition_works(s, config))],
        seq![quality_button(config, bitrate)],
        seq![UPDATE_ARL@],
        seq![BACK_TO_MENU@],
    ]
}

fn single(label: String) -> (r: Vec<String>)
    ensures
        texts(r@) == seq![label@],
{
    let r: Vec<String> = vec![label];
    assert(texts(r@) =~= seq![label@]);
    r
}

fn double(a: &str, b: &str) -> (r: Vec<String>)
    ensures
        texts(r@) == seq![a@, b@],
{
    let r: Vec<String> = vec![a.to_owned(), b.to_owned()];
    assert(texts(r@) =~= seq![a@, b@]);
    r
}

/// Builds the buttons of the settings.
pub fn settings_keyboard(s: &UserSettings, config: &Config, bitrate: u8) -> (r: Vec<Vec<String>>)
    ensures
        rows(r@) == settings_rows(*s, config@, bitrate),
{
    let notif = if s.restart_notifications {
        cat3(NOTIFICATIONS_ON, " ", "ON")
    } else {
        cat3(NOTIFICATIONS_OFF, " ", "OFF")
    };
    let voice = cat3(VOICE_TOGGLE, " ", on_off_word(config.whisper_enabled() && s.voice_search));
    let recog = cat3(
        RECOGNITION_TOGGLE,
        " ",
        on_off_word(config.audd_enabled() && s.song_recognition),
    );
    let quality = if config.deemix_bitrate_lock {
        cat4(QUALITY_LOCKED, " ", bitrate_label(bitrate), " (locked)")
    } else {
        cat4(QUALITY_OPEN, " ", bitrate_label(bitrate), " (tap to change)")
    };
    let r: Vec<Vec<String>> = vec![
        single(notif),
        single(voice),
        single(recog),
        single(quality),
        single(UPDATE_ARL.to_owned()),
        single(BACK_TO_MENU.to_owned()),
    ];
    assert(rows(r@) =~= settings_rows(*s, config@, bitrate));
    r
}

// ---- The main keyboard ---------------------------------------------------------------------

/// The voice buttons that work for a user.
pub open spec fn voice_row(s: UserSettings, config: ConfigV) -> Seq<Seq<char>> {
    (if voice_works(s, config) {
        seq![VOICE_SEARCH@]
    } else {
        Seq::empty()
    }) + (if recognition_works(s, config) {
        seq![RECOGNIZE_SONG@]
    } else {
        Seq::empty()
    })
}

/// The buttons of the menu: the voice buttons are there only where they work for the user.
pub open spec fn main_rows(s: UserSettings, config: ConfigV) -> Seq<Seq<Seq<char>>> {
    let head = seq![seq![SEARCH_TRACK@, SEARCH_ALBUM@], seq![FROM_SPOTIFY@, FROM_DEEZER@]];
    let voice = if voice_works(s, config) || recognition_works(s, config) {
        seq![voice_row(s, config)]
    } else {
        Seq::empty()
    };
    head + voice + seq![seq![CHECK_STATUS@, SETTINGS@], seq![HELP@]]
}

/// Builds the buttons of the menu.
pub fn main_keyboard(s: &UserSettings, config: &Config) -> (r: Vec<Vec<String>>)
    ensures
        rows(r@) == main_rows(*s, config@),
{
    let mut out: Vec<Vec<String>> = vec![
        double(SEARCH_TRACK, SEARCH_ALBUM),
        double(FROM_SPOTIFY, FROM_DEEZER),
    ];
    let show_voice = config.whisper_enabled() && s.voice_search;
    let show_recog = config.audd_enabled() && s.song_recognition;
    if show_voice || show_recog {
        let mut row: Vec<String> = Vec::new();
        if show_voice {
            row.push(VOICE_SEARCH.to_owned());
        }
        if show_recog {
            row.push(RECOGNIZE_SONG.to_owned());
        }
        assert(texts(row@) =~= voice_row(*s, config@));
        out.push(row);
    }
    out.push(double(CHECK_STATUS, SETTINGS));
    out.push(single(HELP.to_owned()));
    assert(rows(out@) =~= main_rows(*s, config@));
    out
}

// ---- Presses -------------------------------------------------------------------------------

/// What a text means as the press of a button.
#[derive(Clone, Copy, Debug, PartialEq, Eq, Structural)]
pub enum Press {
    SearchTrack,
    SearchAlbum,
    FromSpotify,
    FromDeezer,
    VoiceSearch,
    RecognizeSong,
    CheckStatus,
    Settings,
    BackToMenu,
    UpdateArl,
    Help,
    Register,
    Turn(Toggle),
    ChangeQuality,
    QualityLocked,
    Nothing,
}

/// The button whose label is the whole text, or the settings button whose label begins the text.
pub open spec fn press_of(text: Seq<char>) -> Press {
    if text == SEARCH_TRACK@ {
        Press::SearchTrack
    } else if text == SEARCH_ALBUM@ {
        Press::SearchAlbum
    } else if text == FROM_SPOTIFY@ {
        Press::FromSpotify
    } else if text == FROM_DEEZER@ {
        Press::FromDeezer
    } else if text == VOICE_SEARCH@ {
        Press::VoiceSearch
    } else if text == RECOGNIZE_SONG@ {
        Press::RecognizeSong
    } else if text == CHECK_STATUS@ {
        Press::CheckStatus
    } else if text == SETTINGS@ {
        Press::Settings
    } else if text == BACK_TO_MENU@ {
        Press::BackToMenu
    } else if text == UPDATE_ARL@ {
        Press::UpdateArl
    } else if text == HELP@ {
        Press::Help
    } else if text == REGISTER@ {
        Press::Register
    } else if has_prefix(text, NOTIFICATIONS_ON@) || has_prefix(text, NOTIFICATIONS_OFF@) {
        Press::Turn(Toggle::RestartNotifications)
    } else if has_prefix(text, VOICE_TOGGLE@) {
        Press::Turn(Toggle::VoiceSearch)
    } else if has_prefix(text, QUALITY_OPEN@) {
        Press::ChangeQuality
    } else if has_prefix(text, QUALITY_LOCKED@) {
        Press::QualityLocked
    } else if has_prefix(text, RECOGNITION_TOGGLE@) {
        Press::Turn(Toggle::SongRecognition)
    } else {
        Press::Nothing
    }
}

/// Finds out which button a text presses.
pub fn read_press(text: &str) -> (r: Press)
    ensures
        r == press_of(text@),
{
    if same(text, SEARCH_TRACK) {
        Press::SearchTrack
    } else if same(text, SEARCH_ALBUM) {
        Press::SearchAlbum
    } else if same(text, FROM_SPOTIFY) {
        Press::FromSpotify
    } else if same(text, FROM_DEEZER) {
        Press::FromDeezer
    } else if same(text, VOICE_SEARCH) {
        Press::VoiceSearch
    } else if same(text, RECOGNIZE_SONG) {
        Press::RecognizeSong
    } else if same(text, CHECK_STATUS) {
        Press::CheckStatus
    } else if same(text, SETTINGS) {
        Press::Settings
    } else if same(text, BACK_TO_MENU) {
        Press::BackToMenu
    } else if same(text, UPDATE_ARL) {
        Press::UpdateArl
    } else if same(text, HELP) {
        Press::Help
    } else if same(text, REGISTER) {
        Press::Register
    } else if starts_with(text, NOTIFICATIONS_ON) || starts_with(text, NOTIFICATIONS_OFF) {
        Press::Turn(Toggle::RestartNotifications)
    } else if starts_with(text, VOICE_TOGGLE) {
        Press::Turn(Toggle::VoiceSearch)
    } else if starts_with(text, QUALITY_OPEN) {
        Press::ChangeQuality
    } else if starts_with(text, QUALITY_LOCKED) {
        Press::QualityLocked
    } else if starts_with(text, RECOGNITION_TOGGLE) {
        Press::Turn(Toggle::SongRecognition)
    } else {
        Press::Nothing
    }
}

/// The first characters of the labels, which tell them apart.
proof fn labels_spelled()
    ensures
        SEARCH_TRACK@.len() > 2 && SEARCH_TRACK@[0] == '🔍',
        SEARCH_ALBUM@.len() > 2 && SEARCH_ALBUM@[0] == '💿',
        FROM_SPOTIFY@.len() > 2 && FROM_SPOTIFY@[0] == '🟢',
        FROM_DEEZER@.len() > 2 && FROM_DEEZER@[0] == '🎵' && FROM_DEEZER@[2] == 'F',
        VOICE_SEARCH@.len() == 14 && VOICE_SEARCH@[0] == '🎤',
        RECOGNIZE_SONG@.len() > 2 && RECOGNIZE_SONG@[0] == '🎵' && RECOGNIZE_SONG@[2] == 'R',
        CHECK_STATUS@.len() > 2 && CHECK_STATUS@[0] == '📊',
        SETTINGS@.len() > 2 && SETTINGS@[0] == '⚙',
        BACK_TO_MENU@.len() > 2 && BACK_TO_MENU@[0] == '🔙',
        UPDATE_ARL@.len() > 2 && UPDATE_ARL@[0] == '🔑',
        HELP@.len() > 2 && HELP@[0] == 'ℹ',
        REGISTER@.len() > 2 && REGISTER@[0] == '/',
        NOTIFICATIONS_ON@.len() > 2 && NOTIFICATIONS_ON@[0] == '🔔',
        NOTIFICATIONS_OFF@.len() > 2 && NOTIFICATIONS_OFF@[0] == '🔕',
        VOICE_TOGGLE@.len() == 15 && VOICE_TOGGLE@[0] == '🎤',
        QUALITY_OPEN@.len() > 2 && QUALITY_OPEN@[0] == '🎚',
        QUALITY_LOCKED@.len() > 2 && QUALITY_LOCKED@[0] == '🔒',
        RECOGNITION_TOGGLE@.len() > 2 && RECOGNITION_TOGGLE@[0] == '🎵'
            && RECOGNITION_TOGGLE@[2] == 'S',
{
    reveal_strlit("🔍 Search a track");
    reveal_strlit("💿 Search an album");
    reveal_strlit("🟢 From Spotify link");
    reveal_strlit("🎵 From Deezer URL");
    reveal_strlit("🎤 Voice search");
    reveal_strlit("🎵 Recognize song");
    reveal_strlit("📊 Check status");
    reveal_strlit("⚙️ Settings");
    reveal_strlit("🔙 Back to menu");
    reveal_strlit("🔑 Update ARL");
    reveal_strlit("ℹ️ Help");
    reveal_strlit("/register");
    reveal_strlit("🔔 Restart notifications:");
    reveal_strlit("🔕 Restart notifications:");
    reveal_strlit("🎤 Voice search:");
    reveal_strlit("🎚️ Quality:");
    reveal_strlit("🔒 Quality:");
    reveal_strlit("🎵 Song recognition:");
}

/// A text that begins with a label begins with the label's characters.
proof fn prefix_spelled(text: Seq<char>, label: Seq<char>)
    requires
        label.len() > 2,
    ensures
        has_prefix(text, label) ==> text.len() >= label.len() && text[0] == label[0] && text[2]
            == label[2],
{
    if has_prefix(text, label) {
        assert(text.subrange(0, label.len() as int)[0] == label[0]);
        assert(text.subrange(0, label.len() as int)[2] == label[2]);
    }
}

proof fn prefixes_spelled(text: Seq<char>)
    ensures
        has_prefix(text, NOTIFICATIONS_ON@) ==> text.len() > 2 && text[0] == '🔔',
        has_prefix(text, NOTIFICATIONS_OFF@) ==> text.len() > 2 && text[0] == '🔕',
        has_prefix(text, VOICE_TOGGLE@) ==> text.len() >= 15 && text[0] == '🎤',
        has_prefix(text, QUALITY_OPEN@) ==> text.len() > 2 && text[0] == '🎚',
        has_prefix(text, QUALITY_LOCKED@) ==> text.len() > 2 && text[0] == '🔒',
        has_prefix(text, RECOGNITION_TOGGLE@) ==> text.len() > 2 && text[0] == '🎵' && text[2]
            == 'S',
{
    labels_spelled();
    prefix_spelled(text, NOTIFICATIONS_ON@);
    prefix_spelled(text, NOTIFICATIONS_OFF@);
    prefix_spelled(text, VOICE_TOGGLE@);
    prefix_spelled(text, QUALITY_OPEN@);
    prefix_spelled(text, QUALITY_LOCKED@);
    prefix_spelled(text, RECOGNITION_TOGGLE@);
}

/// Every button of the menu does what its label says, and `/register` registers.
pub proof fn menu_buttons_work()
    ensures
        press_of(SEARCH_TRACK@) == Press::SearchTrack,
        press_of(SEARCH_ALBUM@) == Press::SearchAlbum,
        press_of(FROM_SPOTIFY@) == Press::FromSpotify,
        press_of(FROM_DEEZER@) == Press::FromDeezer,
        press_of(VOICE_SEARCH@) == Press::VoiceSearch,
        press_of(RECOGNIZE_SONG@) == Press::RecognizeSong,
        press_of(CHECK_STATUS@) == Press::CheckStatus,
        press_of(SETTINGS@) == Press::Settings,
        press_of(BACK_TO_MENU@) == Press::BackToMenu,
        press_of(UPDATE_ARL@) == Press::UpdateArl,
        press_of(HELP@) == Press::Help,
        press_of(REGISTER@) == Press::Register,
{
    labels_spelled();
}

/// Every label begins with an icon: a text that begins with an ASCII character presses no button,
/// unless it is `/register`.
pub proof fn plain_texts_press_nothing(text: Seq<char>)
    requires
        text.len() == 0 || (text[0] as u32) < 128,
        text != REGISTER@,
    ensures
        press_of(text) == Press::Nothing,
{
    labels_spelled();
    prefixes_spelled(text);
}

/// One of the buttons has the label.
pub open spec fn offers(rows: Seq<Seq<Seq<char>>>, label: Seq<char>) -> bool {
    exists|i: int, j: int|
        0 <= i < rows.len() && 0 <= j < rows[i].len() && #[trigger] rows[i][j] == label
}

/// The menu offers a voice feature exactly where it is configured and the user has it turned on.
pub proof fn menu_offers_what_works(s: UserSettings, config: ConfigV)
    ensures
        offers(main_rows(s, config), VOICE_SEARCH@) <==> config.whisper() && s.voice_search,
        offers(main_rows(s, config), RECOGNIZE_SONG@) <==> config.audd() && s.song_recognition,
{
    labels_spelled();
    let shown = main_rows(s, config);
    let voice = voice_row(s, config);
    assert(shown[0] == seq![SEARCH_TRACK@, SEARCH_ALBUM@]);
    assert(shown[1] == seq![FROM_SPOTIFY@, FROM_DEEZER@]);
    if voice_works(s, config) || recognition_works(s, config) {
        assert(shown[2] == voice);
        assert(shown[3] == seq![CHECK_STATUS@, SETTINGS@]);
        assert(shown[4] == seq![HELP@]);
        if voice_works(s, config) {
            assert(shown[2][0] == VOICE_SEARCH@);
        }
        if recognition_works(s, config) {
            assert(shown[2][voice.len() - 1] == RECOGNIZE_SONG@);
        }
    } else {
        assert(shown[2] == seq![CHECK_STATUS@, SETTINGS@]);
        assert(shown[3] == seq![HELP@]);
    }
}

proof fn label_begins(label: Seq<char>, rest: Seq<char>)
    requires
        label.len() > 2,
    ensures
        has_prefix(label + rest, label),
        (label + rest)[0] == label[0],
        (label + rest)[2] == label[2],
{
    assert((label + rest).subrange(0, label.len() as int) =~= label);
}

/// Every button of the settings does what its label says, whatever the label shows: it turns its
/// setting, changes the quality or says that the quality is locked.
pub proof fn settings_buttons_work(s: UserSettings, config: ConfigV, bitrate: u8)
    ensures
        ({
            let shown = settings_rows(s, config, bitrate);
            &&& press_of(shown[0][0]) == Press::Turn(Toggle::RestartNotifications)
            &&& press_of(shown[1][0]) == Press::Turn(Toggle::VoiceSearch)
            &&& press_of(shown[2][0]) == Press::Turn(Toggle::SongRecognition)
            &&& press_of(shown[3][0]) == if config.deemix_bitrate_lock {
                Press::QualityLocked
            } else {
                Press::ChangeQuality
            }
            &&& press_of(shown[4][0]) == Press::UpdateArl
            &&& press_of(shown[5][0]) == Press::BackToMenu
        }),
{
    labels_spelled();
    menu_buttons_work();
    let notif = notification_button(s);
    let label = if s.restart_notifications {
        NOTIFICATIONS_ON@
    } else {
        NOTIFICATIONS_OFF@
    };
    let state = if s.restart_notifications {
        "ON"@
    } else {
        "OFF"@
    };
    assert(notif =~= label + (" "@ + state));
    label_begins(label, " "@ + state);
    prefixes_spelled(notif);
    let voice = VOICE_TOGGLE@ + " "@ + on_off(voice_works(s, config));
    assert(voice =~= VOICE_TOGGLE@ + (" "@ + on_off(voice_works(s, config))));
    label_begins(VOICE_TOGGLE@, " "@ + on_off(voice_works(s, config)));
    prefixes_spelled(voice);
    let recog = RECOGNITION_TOGGLE@ + " "@ + on_off(recognition_works(s, config));
    assert(recog =~= RECOGNITION_TOGGLE@ + (" "@ + on_off(recognition_works(s, config))));
    label_begins(RECOGNITION_TOGGLE@, " "@ + on_off(recognition_works(s, config)));
    prefixes_spelled(recog);
    let quality = quality_button(config, bitrate);
    if config.deemix_bitrate_lock {
        let rest = " "@ + quality_name(bitrate) + " (locked)"@;
        assert(quality =~= QUALITY_LOCKED@ + rest);
        label_begins(QUALITY_LOCKED@, rest);
    } else {
        let rest = " "@ + quality_name(bitrate) + " (tap to change)"@;
        assert(quality =~= QUALITY_OPEN@ + rest);
        label_begins(QUALITY_OPEN@, rest);
    }
    prefixes_spelled(quality);
}

// ---- Inline buttons ------------------------------------------------------------------------

/// A button under a message, with the data that its press sends back.
#[derive(Debug, PartialEq)]
pub struct Button<S = String> {
    pub label: S,
    pub data: S,
}

/// A button under a message.
pub type ButtonV = Button<Seq<char>>;

impl View for Button {
    type V = ButtonV;

    open spec fn view(&self) -> ButtonV {
        Button { label: self.label@, data: self.data@ }
    }
}

/// The buttons of each row.
pub open spec fn button_rows(list: Seq<Vec<Button>>) -> Seq<Seq<ButtonV>> {
    list.map_values(|row: Vec<Button>| row@.map_values(|b: Button| b@))
}

pub const CANCEL: &'static str = "cancel";

pub const DOWNLOAD: &'static str = "dl:";

pub const TRANSCRIBE: &'static str = "vt:";

pub const RECOGNIZE: &'static str = "vr:";

/// A row of one button.
pub open spec fn one_button(label: Seq<char>, data: Seq<char>) -> Seq<ButtonV> {
    seq![Button { label, data }]
}

/// The row that cancels.
pub open spec fn cancel_row() -> Seq<ButtonV> {
    one_button("❌ Cancel"@, CANCEL@)
}

fn button(label: String, data: String) -> (r: Vec<Button>)
    ensures
        r@.map_values(|b: Button| b@) == one_button(label@, data@),
{
    let r: Vec<Button> = vec![Button { label, data }];
    assert(r@.map_values(|b: Button| b@) =~= one_button(label@, data@));
    r
}

fn cancel() -> (r: Vec<Button>)
    ensures
        r@.map_values(|b: Button| b@) == cancel_row(),
{
    button("❌ Cancel".to_owned(), CANCEL.to_owned())
}

fn push_row(list: &mut Vec<Vec<Button>>, row: Vec<Button>)
    ensures
        button_rows(final(list)@) == button_rows(old(list)@).push(
            row@.map_values(|b: Button| b@),
        ),
{
    let ghost before = list@;
    list.push(row);
    assert(button_rows(list@) =~= button_rows(before).push(row@.map_values(|b: Button| b@)));
}

/// How a search result is shown: with an icon, and cut where it is too long for a button.
pub open spec fn result_label(icon: Seq<char>, f: FoundV) -> Seq<char> {
    clipped(icon + " "@ + f.title + " — "@ + f.artist, 60, 57, "..."@)
}

/// The row of a search result: its press downloads the result's link.
pub open spec fn result_row(icon: Seq<char>, f: FoundV) -> Seq<ButtonV> {
    one_button(result_label(icon, f), DOWNLOAD@ + f.link)
}

/// The rows of the search results, and the one that cancels.
pub open spec fn result_rows(icon: Seq<char>, list: Seq<FoundV>) -> Seq<Seq<ButtonV>> {
    list.map_values(|f: FoundV| result_row(icon, f)).push(cancel_row())
}

/// Builds the buttons for search results.
pub fn result_buttons(icon: &str, list: &Vec<Found>) -> (r: Vec<Vec<Button>>)
    ensures
        button_rows(r@) == result_rows(icon@, results(list@)),
{
    let ghost all = results(list@);
    let mut out: Vec<Vec<Button>> = Vec::new();
    let mut i: usize = 0;
    assert(button_rows(out@) =~= all.take(0).map_values(|f: FoundV| result_row(icon@, f)));
    while i < list.len()
        invariant
            i <= list@.len(),
            all == results(list@),
            button_rows(out@) == all.take(i as int).map_values(|f: FoundV| result_row(icon@, f)),
        decreases list@.len() - i,
    {
        let f = &list[i];
        let full = cat5(icon, " ", f.title.as_str(), " — ", f.artist.as_str());
        let label = clip(full.as_str(), 60, 57, "...");
        let row = button(label, cat2(DOWNLOAD, f.link.as_str()));
        assert(f@ == all[i as int]);
        push_row(&mut out, row);
        assert(all.take(i + 1).map_values(|f: FoundV| result_row(icon@, f)) =~= all.take(
            i as int,
        ).map_values(|f: FoundV| result_row(icon@, f)).push(result_row(icon@, f@)));
        i = i + 1;
    }
    assert(all.take(i as int) =~= all);
    push_row(&mut out, cancel());
    out
}

/// No label of a search result is longer than sixty characters.
pub proof fn result_labels_fit(icon: Seq<char>, f: FoundV)
    ensures
        result_label(icon, f).len() <= 60,
{
    reveal_strlit("...");
}

/// The rows for a voice note: what works for the user, and a way out.
pub open spec fn choice_rows(
    voice: bool,
    voice_label: Seq<char>,
    voice_data: Seq<char>,
    song: bool,
    song_label: Seq<char>,
    song_data: Seq<char>,
) -> Seq<Seq<ButtonV>> {
    (if voice {
        seq![one_button(voice_label, voice_data)]
    } else {
        Seq::empty()
    }) + (if song {
        seq![one_button(song_label, song_data)]
    } else {
        Seq::empty()
    }) + seq![cancel_row()]
}

/// Builds the buttons for a voice note.
pub fn choice_buttons(
    voice: bool,
    voice_label: &str,
    voice_data: String,
    song: bool,
    song_label: &str,
    song_data: String,
) -> (r: Vec<Vec<Button>>)
    ensures
        button_rows(r@) == choice_rows(
            voice,
            voice_label@,
            voice_data@,
            song,
            song_label@,
            song_data@,
        ),
{
    let mut out: Vec<Vec<Button>> = Vec::new();
    assert(button_rows(out@) =~= Seq::empty());
    if voice {
        push_row(&mut out, button(voice_label.to_owned(), voice_data));
    }
    if song {
        push_row(&mut out, button(song_label.to_owned(), song_data));
    }
    push_row(&mut out, cancel());
    assert(button_rows(out@) =~= choice_rows(
        voice,
        voice_label@,
        voice_data@,
        song,
        song_label@,
        song_data@,
    ));
    out
}

/// What the press of an inline button asks for.
#[derive(Debug, PartialEq)]
pub enum Callback<S = String> {
    Cancel,
    Download(S),
    Transcribe(S),
    Recognize(S),
    Unknown,
}

/// What the press of an inline button asks for.
pub type CallbackV = Callback<Seq<char>>;

impl View for Callback {
    type V = CallbackV;

    open spec fn view(&self) -> CallbackV {
        match self {
            Callback::Cancel => Callback::Cancel,
            Callback::Download(s) => Callback::Download(s@),
            Callback::Transcribe(s) => Callback::Transcribe(s@),
            Callback::Recognize(s) => Callback::Recognize(s@),
            Callback::Unknown => Callback::Unknown,
        }
    }
}

/// What the data of a press ask for.
pub open spec fn callback_of(data: Seq<char>) -> CallbackV {
    if data == CANCEL@ {
        Callback::Cancel
    } else if has_prefix(data, DOWNLOAD@) {
        Callback::Download(data.skip(DOWNLOAD@.len() as int))
    } else if has_prefix(data, TRANSCRIBE@) {
        Callback::Transcribe(data.skip(TRANSCRIBE@.len() as int))
    } else if has_prefix(data, RECOGNIZE@) {
        Callback::Recognize(data.skip(RECOGNIZE@.len() as int))
    } else {
        Callback::Unknown
    }
}

/// Finds out what the data of a press ask for.
pub fn read_callback(data: &str) -> (r: Callback)
    ensures
        r@ == callback_of(data@),
{
    if same(data, CANCEL) {
        return Callback::Cancel;
    }
    match strip_prefix(data, DOWNLOAD) {
        Some(url) => return Callback::Download(url),
        None => {},
    }
    match strip_prefix(data, TRANSCRIBE) {
        Some(id) => return Callback::Transcribe(id),
        None => {},
    }
    match strip_prefix(data, RECOGNIZE) {
        Some(id) => return Callback::Recognize(id),
        None => {},
    }
    Callback::Unknown
}

/// Every inline button does what it is there for: the data that it sends back are read as what
/// they were made from.
pub proof fn inline_buttons_work(rest: Seq<char>)
    ensures
        callback_of(CANCEL@) == CallbackV::Cancel,
        callback_of(DOWNLOAD@ + rest) == CallbackV::Download(rest),
        callback_of(TRANSCRIBE@ + rest) == CallbackV::Transcribe(rest),
        callback_of(RECOGNIZE@ + rest) == CallbackV::Recognize(rest),
{
    reveal_strlit("cancel");
    reveal_strlit("dl:");
    reveal_strlit("vt:");
    reveal_strlit("vr:");
    let d = DOWNLOAD@ + rest;
    let t = TRANSCRIBE@ + rest;
    let r = RECOGNIZE@ + rest;
    assert(d[0] == 'd' && t[0] == 'v' && t[1] == 't' && r[0] == 'v' && r[1] == 'r');
    assert(d.subrange(0, 3) =~= DOWNLOAD@);
    assert(t.subrange(0, 3) =~= TRANSCRIBE@);
    assert(r.subrange(0, 3) =~= RECOGNIZE@);
    assert(d.skip(3) =~= rest);
    assert(t.skip(3) =~= rest);
    assert(r.skip(3) =~= rest);
    assert(!has_prefix(t, DOWNLOAD@)) by {
        assert(t.subrange(0, 3)[0] == 'v');
    }
    assert(!has_prefix(r, DOWNLOAD@)) by {
        assert(r.subrange(0, 3)[0] == 'v');
    }
    assert(!has_prefix(r, TRANSCRIBE@)) by {
        assert(r.subrange(0, 3)[1] == 'r');
    }
}

/// Each search result's button downloads that result's link, and the last button cancels.
pub proof fn result_buttons_download(icon: Seq<char>, list: Seq<FoundV>)
    ensures
        result_rows(icon, list).len() == list.len() + 1,
        forall|i: int|
            0 <= i < list.len() ==> callback_of(
                (#[trigger] result_rows(icon, list)[i])[0].data,
            ) == CallbackV::Download(list[i].link),
        callback_of(result_rows(icon, list).last()[0].data) == CallbackV::Cancel,
{
    inline_buttons_work(Seq::empty());
    assert forall|i: int| 0 <= i < list.len() implies callback_of(
        (#[trigger] result_rows(icon, list)[i])[0].data,
    ) == CallbackV::Download(list[i].link) by {
        inline_buttons_work(list[i].link);
    }
}

// ---- Laws of labels ------------------------------------------------------------------------

/// The best quality is FLAC, whose number is 9; MP3 at 320 kbps is 3 and MP3 at 128 kbps is 1. A tap
/// leads from each to the next lower one, and from the lowest back to the best.
pub proof fn qualities_step_down(bitrate: u8)
    ensures
        quality_after(9) == 3 && quality_after(3) == 1 && quality_after(1) == 9,
        bitrate != 9 && bitrate != 3 ==> quality_after(bitrate) == 9,
        quality_name(9) == "FLAC (lossless)"@,
        quality_name(3) == "MP3 320kbps"@,
        quality_name(1) == "MP3 128kbps"@,
        bitrate != 9 && bitrate != 3 && bitrate != 1 ==> quality_name(bitrate) == "Unknown"@,
{
}

/// The settings show how they stand: ON exactly where a setting is on and its feature is there, and
/// the name of the quality, with a lock where it is locked.
pub proof fn settings_show_how_they_stand(s: UserSettings, config: ConfigV, bitrate: u8)
    ensures
        ({
            let shown = settings_rows(s, config, bitrate);
            &&& shown.len() == 6
            &&& shown[0] == seq![
                if s.restart_notifications {
                    "🔔 Restart notifications: ON"@
                } else {
                    "🔕 Restart notifications: OFF"@
                },
            ]
            &&& shown[1] == seq![
                if (config.openai_api_key.len() > 0 || config.whisper_url.len() > 0)
                    && s.voice_search {
                    "🎤 Voice search: ON"@
                } else {
                    "🎤 Voice search: OFF"@
                },
            ]
            &&& shown[2] == seq![
                if config.audd_api_key.len() > 0 && s.song_recognition {
                    "🎵 Song recognition: ON"@
                } else {
                    "🎵 Song recognition: OFF"@
                },
            ]
            &&& shown[3].len() == 1 && contains(shown[3][0], quality_name(bitrate))
            &&& config.deemix_bitrate_lock ==> has_prefix(shown[3][0], "🔒 Quality:"@) && contains(
                shown[3][0],
                "(locked)"@,
            )
            &&& !config.deemix_bitrate_lock ==> has_prefix(shown[3][0], "🎚️ Quality:"@) && contains(
                shown[3][0],
                "(tap to change)"@,
            )
            &&& shown[4] == seq!["🔑 Update ARL"@]
            &&& shown[5] == seq!["🔙 Back to menu"@]
        }),
{
    labels_spelled();
    reveal_strlit(" ");
    reveal_strlit("ON");
    reveal_strlit("OFF");
    reveal_strlit("🔔 Restart notifications:");
    reveal_strlit("🔕 Restart notifications:");
    reveal_strlit("🔔 Restart notifications: ON");
    reveal_strlit("🔕 Restart notifications: OFF");
    reveal_strlit("🎤 Voice search:");
    reveal_strlit("🎤 Voice search: ON");
    reveal_strlit("🎤 Voice search: OFF");
    reveal_strlit("🎵 Song recognition:");
    reveal_strlit("🎵 Song recognition: ON");
    reveal_strlit("🎵 Song recognition: OFF");
    assert(NOTIFICATIONS_ON@ + " "@ + "ON"@ =~= "🔔 Restart notifications: ON"@);
    assert(NOTIFICATIONS_OFF@ + " "@ + "OFF"@ =~= "🔕 Restart notifications: OFF"@);
    assert(VOICE_TOGGLE@ + " "@ + "ON"@ =~= "🎤 Voice search: ON"@);
    assert(VOICE_TOGGLE@ + " "@ + "OFF"@ =~= "🎤 Voice search: OFF"@);
    assert(RECOGNITION_TOGGLE@ + " "@ + "ON"@ =~= "🎵 Song recognition: ON"@);
    assert(RECOGNITION_TOGGLE@ + " "@ + "OFF"@ =~= "🎵 Song recognition: OFF"@);
    let name = quality_name(bitrate);
    let label = if config.deemix_bitrate_lock {
        QUALITY_LOCKED@
    } else {
        QUALITY_OPEN@
    };
    let end = if config.deemix_bitrate_lock {
        " (locked)"@
    } else {
        " (tap to change)"@
    };
    let bare = if config.deemix_bitrate_lock {
        "(locked)"@
    } else {
        "(tap to change)"@
    };
    reveal_strlit(" (locked)");
    reveal_strlit(" (tap to change)");
    reveal_strlit("(locked)");
    reveal_strlit("(tap to change)");
    let none = Seq::<char>::empty();
    let button = quality_button(config, bitrate);
    assert(button == label + " "@ + name + end);
    parts_are_contained(label + " "@, name, end);
    assert(end =~= " "@ + bare + none);
    parts_are_contained(" "@, bare, none);
    contained_parts_stay(label + " "@ + name, end, bare);
    assert(button =~= label + (" "@ + name + end));
    label_begins(label, " "@ + name + end);
}

/// The menu always offers the searches, the links, the status, the settings and the help.
pub proof fn menu_offers_the_rest(s: UserSettings, config: ConfigV)
    ensures
        ({
            let shown = main_rows(s, config);
            &&& offers(shown, "🔍 Search a track"@) && offers(shown, "💿 Search an album"@)
            &&& offers(shown, "🟢 From Spotify link"@) && offers(shown, "🎵 From Deezer URL"@)
            &&& offers(shown, "📊 Check status"@) && offers(shown, "⚙️ Settings"@)
            &&& offers(shown, "ℹ️ Help"@)
        }),
{
    let shown = main_rows(s, config);
    let at: int = if voice_works(s, config) || recognition_works(s, config) {
        3
    } else {
        2
    };
    assert(shown[0][0] == SEARCH_TRACK@ && shown[0][1] == SEARCH_ALBUM@);
    assert(shown[1][0] == FROM_SPOTIFY@ && shown[1][1] == FROM_DEEZER@);
    assert(shown[at][0] == CHECK_STATUS@ && shown[at][1] == SETTINGS@);
    assert(shown[at + 1][0] == HELP@);
}

/// A voice feature works for a user exactly where it is configured and the user has it on, and
/// neither depends on the other.
pub proof fn features_work_where_wanted_and_configured(s: UserSettings, config: ConfigV)
    ensures
        voice_works(s, config) <==> s.voice_search && (config.openai_api_key.len() > 0
            || config.whisper_url.len() > 0),
        recognition_works(s, config) <==> s.song_recognition && config.audd_api_key.len() > 0,
{
}

/// A search result is shown with its icon first, and with its title and its artist where they fit
/// into sixty characters.
pub proof fn results_are_labelled(icon: Seq<char>, f: FoundV)
    ensures
        icon.len() <= 50 ==> has_prefix(result_label(icon, f), icon + " "@),
        icon.len() + f.title.len() + f.artist.len() + 4 <= 60 ==> contains(
            result_label(icon, f),
            f.title + " — "@ + f.artist,
        ),
        ({
            let full = icon + " "@ + f.title + " — "@ + f.artist;
            full.len() > 60 ==> result_label(icon, f) == full.take(57) + "..."@
        }),
        result_row(icon, f).len() == 1,
        result_row(icon, f)[0].label == result_label(icon, f),
{
    reveal_strlit(" ");
    reveal_strlit(" — ");
    let head = icon + " "@;
    let names = f.title + " — "@ + f.artist;
    let full = icon + " "@ + f.title + " — "@ + f.artist;
    assert(full =~= head + names);
    let label = result_label(icon, f);
    if icon.len() <= 50 {
        assert(label.subrange(0, head.len() as int) =~= head);
    }
    if full.len() <= 60 {
        let none = Seq::<char>::empty();
        assert(full =~= head + names + none);
        parts_are_contained(head, names, none);
    }
}

/// A voice note is offered for transcription exactly where that works, for recognition exactly where
/// that works, in that order, and it can always be cancelled.
pub proof fn voice_choices_are_those_that_work(
    voice: bool,
    voice_label: Seq<char>,
    voice_data: Seq<char>,
    song: bool,
    song_label: Seq<char>,
    song_data: Seq<char>,
)
    ensures
        ({
            let rows = choice_rows(voice, voice_label, voice_data, song, song_label, song_data);
            let first: int = if voice {
                1
            } else {
                0
            };
            let both: int = if song {
                first + 1
            } else {
                first
            };
            &&& rows.len() == both + 1
            &&& voice ==> rows[0] == seq![Button { label: voice_label, data: voice_data }]
            &&& song ==> rows[first] == seq![Button { label: song_label, data: song_data }]
            &&& rows[both].len() == 1 && rows[both][0].data == "cancel"@
        }),
{
}

/// The data of a button that the bot did not make ask for nothing.
pub proof fn strange_buttons_do_nothing(data: Seq<char>)
    ensures
        data != "cancel"@ && !has_prefix(data, "dl:"@) && !has_prefix(data, "vt:"@) && !has_prefix(
            data,
            "vr:"@,
        ) ==> callback_of(data) == CallbackV::Unknown,
{
}

/// Only the labels press a button: a text that is none of the labels of the menu and begins with none
/// of those of the settings presses nothing.
pub proof fn only_labels_press_buttons(text: Seq<char>)
    requires
        text != "🔍 Search a track"@ && text != "💿 Search an album"@,
        text != "🟢 From Spotify link"@ && text != "🎵 From Deezer URL"@,
        text != "🎤 Voice search"@ && text != "🎵 Recognize song"@,
        text != "📊 Check status"@ && text != "⚙️ Settings"@,
        text != "🔙 Back to menu"@ && text != "🔑 Update ARL"@,
        text != "ℹ️ Help"@ && text != "/register"@,
        !has_prefix(text, "🔔 Restart notifications:"@),
        !has_prefix(text, "🔕 Restart notifications:"@),
        !has_prefix(text, "🎤 Voice search:"@) && !has_prefix(text, "🎵 Song recognition:"@),
        !has_prefix(text, "🎚️ Quality:"@) && !has_prefix(text, "🔒 Quality:"@),
    ensures
        press_of(text) == Press::Nothing,
{
}

} // verus!
