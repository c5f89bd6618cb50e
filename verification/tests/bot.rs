use teleemix::bot::{
    is_still_waiting, receive, user_id_from_msg, BotState, Command, Incoming, PendingVoices,
    GUIDE, LOCKED, SHORT_GUIDE, VOICE_EXPIRED, VOICE_OFF, VOICE_WANTED, WELCOME,
};
use teleemix::config::Config;
use teleemix::deemix::{add_to_queue, Found, SearchKind};
use teleemix::keyboard::{main_keyboard, settings_keyboard, Button};
use teleemix::turn::{
    Act, FetchTask, Keyboard, Origin, Purpose, QueueTask, ShortLinkTask, Slot, State, StatusTask,
    Task, Turn,
};
use teleemix::users::{Toggle, UserSettings, Users};

fn config(list: &[(&str, &str)]) -> Config {
    Config::from_env(&list.iter().map(|(a, b)| (a.to_string(), b.to_string())).collect())
}

fn bot(list: &[(&str, &str)]) -> BotState {
    BotState::new(config(list), Users::new())
}

fn say(text: &str) -> Act {
    Act::Send { slot: Slot::Status, text: text.to_string(), keyboard: Keyboard::Bare }
}

fn show(text: &str) -> Act {
    Act::Edit { slot: Slot::Status, text: text.to_string(), keyboard: Keyboard::Bare }
}

fn text(s: &str) -> Incoming {
    Incoming::Text(s.to_string())
}

fn voice(s: &str) -> Incoming {
    Incoming::Voice(s.to_string())
}

fn done(acts: Vec<Act>) -> Turn {
    Turn { acts, task: Task::Done }
}

const BOTH: [(&str, &str); 2] = [("AUDD_API_KEY", "k"), ("OPENAI_API_KEY", "o")];

#[test]
fn senders_have_numbers() {
    assert_eq!(user_id_from_msg(Some(42)), 42);
    assert_eq!(user_id_from_msg(None), 0);
}

#[test]
fn voice_notes_are_kept_by_key() {
    let mut voices = PendingVoices::new();
    assert_eq!(voices.get("1"), None);
    voices.insert("1".to_string(), "a".to_string());
    voices.insert("2".to_string(), "b".to_string());
    voices.insert("1".to_string(), "c".to_string());
    assert_eq!(voices.get("1"), Some("c".to_string()));
    assert_eq!(voices.get("2"), Some("b".to_string()));
}

#[test]
fn links_are_queued_in_the_current_quality() {
    let mut b = bot(&[("DEEMIX_URL", "http://d"), ("DEEMIX_BITRATE", "3")]);
    assert_eq!(b.queue("u"), add_to_queue("http://d", "u", 3));
    b.handle_message(1, 10, &text("🎚️ Quality: MP3 320kbps (tap to change)"));
    assert_eq!(b.queue("u"), add_to_queue("http://d", "u", 1));
}

#[test]
fn commands_are_answered() {
    let mut b = bot(&[]);
    let s = UserSettings::default();
    let menu = |text: &str| Act::Send {
        slot: Slot::Status,
        text: text.to_string(),
        keyboard: Keyboard::Reply(main_keyboard(&s, &config(&[]))),
    };
    assert_eq!(b.handle_command(5, Command::Start), done(vec![Act::SaveUsers, menu(WELCOME)]));
    assert_eq!(b.handle_command(5, Command::Menu), done(vec![Act::SaveUsers, menu("Choose an action:")]));
    assert_eq!(b.handle_command(5, Command::Help), done(vec![Act::SaveUsers, say(GUIDE)]));
    assert_eq!(
        b.handle_command(5, Command::Settings),
        done(vec![
            Act::SaveUsers,
            Act::Send {
                slot: Slot::Status,
                text: "⚙️ Your settings — tap to toggle:".to_string(),
                keyboard: Keyboard::Reply(settings_keyboard(&s, &config(&[]), 9)),
            }
        ])
    );
    assert_eq!(
        b.handle_command(5, Command::Status),
        Turn { acts: vec![Act::SaveUsers], task: Task::Status(StatusTask { by_button: false }) }
    );
    assert_eq!(b.users.len(), 1);
}

#[test]
fn commands_ask_for_what_they_need() {
    let mut b = bot(&[]);
    let cases = [
        (Command::Dl, State::AwaitingDl, "🎵 Send me a Deezer URL:"),
        (Command::Search, State::AwaitingSearch, "🔍 What song or artist are you looking for?"),
        (Command::Album, State::AwaitingAlbum, "💿 What album are you looking for?"),
        (Command::Sp, State::AwaitingSpotify, "🟢 Send me a Spotify track or album link:"),
        (Command::Updatearl, State::AwaitingArl, "Please send your new Deezer ARL:"),
    ];
    for (cmd, state, question) in cases {
        assert_eq!(
            b.handle_command(5, cmd),
            done(vec![Act::SaveUsers, Act::SetState(state), say(question)])
        );
    }
}

#[test]
fn answers_end_the_waiting() {
    let turn = receive(State::AwaitingSearch, &text(" air ")).unwrap();
    assert_eq!(turn.acts, vec![Act::ExitDialogue, say("🔍 Searching for air...")]);
    match receive(State::AwaitingAlbum, &text("air")).unwrap().task {
        Task::Search(t) => assert_eq!(t.kind, SearchKind::Album),
        other => panic!("no search: {:?}", other),
    }
    let link = receive(State::AwaitingDl, &text("https://deezer.com/track/1\n")).unwrap();
    assert_eq!(link.acts, vec![Act::ExitDialogue, say("⏳ Queuing track...")]);
    let spotify = receive(State::AwaitingSpotify, &text("x")).unwrap();
    assert_eq!(spotify.acts, vec![Act::ExitDialogue, say("🎵 Looking up Spotify link...")]);
    assert_eq!(
        receive(State::AwaitingSearch, &Incoming::Other),
        Some(done(vec![Act::ExitDialogue]))
    );
    assert_eq!(receive(State::Idle, &text("x")), None);
}

#[test]
fn short_arls_are_asked_for_again() {
    let short = "a".repeat(99);
    assert_eq!(
        receive(State::AwaitingArl, &text(&format!(" {} ", short))),
        Some(done(vec![say("❌ That ARL looks too short, double check it. Try again:")]))
    );
    assert_eq!(
        receive(State::AwaitingArl, &voice("f")),
        Some(done(vec![say("Please send the ARL as text.")]))
    );
    let long = "a".repeat(100);
    let turn = receive(State::AwaitingArl, &text(&long)).unwrap();
    assert_eq!(turn.acts, vec![Act::ExitDialogue, say("🔄 Validating new ARL...")]);
    match turn.task {
        Task::Login(t) => assert_eq!(t.arl, long),
        other => panic!("no login: {:?}", other),
    }
    let bytes = receive(State::AwaitingArl, &text(&"é".repeat(50))).unwrap();
    assert_eq!(bytes.acts[0], Act::ExitDialogue);
}

#[test]
fn voice_notes_that_were_asked_for() {
    let turn = receive(State::AwaitingVoiceTranscribe, &voice("f")).unwrap();
    assert_eq!(turn.acts, vec![Act::ExitDialogue, say("🎤 Transcribing...")]);
    assert_eq!(
        turn.task,
        Task::Fetch(FetchTask {
            file_id: "f".to_string(),
            purpose: Purpose::Transcribe,
            origin: Origin::Dialogue,
        })
    );
    assert_eq!(
        receive(State::AwaitingVoiceRecognize, &text("la la")),
        Some(done(vec![
            Act::ExitDialogue,
            say("⚠️ I expected a voice note. Use /menu to try again."),
        ]))
    );
}

#[test]
fn the_time_for_a_voice_note_runs_out() {
    assert!(is_still_waiting(Some(State::AwaitingVoiceTranscribe), State::AwaitingVoiceTranscribe));
    assert!(!is_still_waiting(Some(State::Idle), State::AwaitingVoiceTranscribe));
    assert!(!is_still_waiting(None, State::AwaitingVoiceTranscribe));
    let mut b = bot(&BOTH);
    assert_eq!(
        b.handle_message(1, 2, &text("🎤 Voice search")),
        done(vec![
            Act::SaveUsers,
            Act::SetState(State::AwaitingVoiceTranscribe),
            say(VOICE_WANTED),
            Act::Expire {
                state: State::AwaitingVoiceTranscribe,
                seconds: 60,
                notice: VOICE_EXPIRED.to_string(),
            },
        ])
    );
}

#[test]
fn voice_features_are_optional() {
    let mut b = bot(&[]);
    assert_eq!(
        b.handle_message(1, 2, &text("🎤 Voice search")),
        done(vec![
            Act::SaveUsers,
            say("⚠️ Voice search is not configured. Add OPENAI_API_KEY or WHISPER_URL to your .env, or enable it in /settings."),
        ])
    );
    assert_eq!(
        b.handle_message(1, 3, &text("🎵 Recognize song")),
        done(vec![
            Act::SaveUsers,
            say("⚠️ Song recognition is not configured. Add AUDD_API_KEY to your .env, or enable it in /settings."),
        ])
    );
    assert_eq!(
        b.handle_message(1, 4, &voice("f")),
        done(vec![Act::SaveUsers, Act::ExitDialogue, say(VOICE_OFF)])
    );
    assert_eq!(
        b.handle_message(1, 5, &text("🎤 Voice search: OFF")),
        done(vec![
            Act::SaveUsers,
            say("⚠️ Voice search is not configured. Add OPENAI_API_KEY to your .env to enable it."),
        ])
    );
    assert_eq!(
        b.handle_message(1, 6, &text("🎵 Song recognition: OFF")),
        done(vec![
            Act::SaveUsers,
            say("⚠️ Song recognition is not configured. Add AUDD_API_KEY to your .env to enable it."),
        ])
    );
    assert_eq!(b.users.entry(0), (1, UserSettings::default()));
}

#[test]
fn voice_notes_find_their_file_again() {
    let mut b = bot(&BOTH);
    let button = |label: &str, data: &str| {
        vec![Button { label: label.to_string(), data: data.to_string() }]
    };
    assert_eq!(
        b.handle_message(1, 77, &voice("file-77")),
        done(vec![
            Act::SaveUsers,
            Act::ExitDialogue,
            Act::Send {
                slot: Slot::Status,
                text: "🎙️ What should I do with this voice note?".to_string(),
                keyboard: Keyboard::Inline(vec![
                    button("🎤 Transcribe what I said", "vt:77"),
                    button("🎵 Recognize the song", "vr:77"),
                    button("❌ Cancel", "cancel"),
                ]),
            },
        ])
    );
    b.handle_message(2, 78, &voice("file-78"));
    let turn = b.handle_callback(Some("vr:77"), true);
    assert_eq!(turn.acts, vec![show("⏳ Processing voice note...")]);
    assert_eq!(
        turn.task,
        Task::Fetch(FetchTask {
            file_id: "file-77".to_string(),
            purpose: Purpose::Recognize,
            origin: Origin::Callback,
        })
    );
    assert_eq!(
        b.handle_callback(Some("vt:79"), true),
        done(vec![show("❌ Voice note expired. Please send it again.")])
    );
}

#[test]
fn buttons_under_messages_work() {
    let b = bot(&[]);
    assert_eq!(b.handle_callback(Some("cancel"), true), done(vec![show("Cancelled.")]));
    let url = "https://www.deezer.com/track/1";
    assert_eq!(
        b.handle_callback(Some("dl:https://www.deezer.com/track/1"), true),
        Turn {
            acts: vec![show("⏳ Queuing download...")],
            task: Task::Queue(QueueTask {
                url: url.to_string(),
                done: format!("✅ Added to queue!\n{}", url),
                failed: "❌ Failed: ".to_string(),
            }),
        }
    );
    assert_eq!(b.handle_callback(None, true), done(Vec::new()));
    assert_eq!(b.handle_callback(Some("cancel"), false), done(Vec::new()));
    assert_eq!(b.handle_callback(Some("voice_search:1"), true), done(Vec::new()));
}

#[test]
fn settings_are_turned() {
    let mut b = bot(&BOTH);
    let turned = UserSettings::default().toggle(Toggle::RestartNotifications);
    assert_eq!(
        b.handle_message(1, 2, &text("🔕 Restart notifications: OFF")),
        done(vec![
            Act::SaveUsers,
            Act::SaveUsers,
            Act::Send {
                slot: Slot::Status,
                text: "🔔 Restart notifications: ON".to_string(),
                keyboard: Keyboard::Reply(settings_keyboard(&turned, &config(&BOTH), 9)),
            },
        ])
    );
    b.handle_message(2, 3, &text("🎵 Song recognition: ON"));
    assert_eq!(b.users.get_or_create(1), turned);
    assert!(!b.users.get_or_create(2).song_recognition);
    assert_eq!(b.users.all_with_notifications(), vec![1]);
    b.handle_message(1, 4, &text("🔔 Restart notifications: ON"));
    assert_eq!(b.users.get_or_create(1), UserSettings::default());
}

#[test]
fn quality_changes_for_everybody() {
    let mut b = bot(&[]);
    let s = UserSettings::default();
    let press = "🎚️ Quality: FLAC (lossless) (tap to change)";
    assert_eq!(
        b.handle_message(1, 2, &text(press)),
        done(vec![
            Act::SaveUsers,
            Act::Send {
                slot: Slot::Status,
                text: "🎚️ Download quality changed to: MP3 320kbps\n\n⚠️ This affects ALL users on this server."
                    .to_string(),
                keyboard: Keyboard::Reply(settings_keyboard(&s, &config(&[]), 3)),
            },
        ])
    );
    b.handle_message(2, 3, &text(press));
    b.handle_message(3, 4, &text(press));
    assert_eq!(b.current_bitrate, 9);
}

#[test]
fn locked_quality_stays() {
    let mut b = bot(&[("DEEMIX_BITRATE_LOCK", "true"), ("DEEMIX_BITRATE", "1")]);
    let refused = done(vec![Act::SaveUsers, say(LOCKED)]);
    assert_eq!(b.handle_message(1, 2, &text("🎚️ Quality: x")), refused);
    assert_eq!(b.handle_message(1, 3, &text("🔒 Quality: MP3 128kbps (locked)")), refused);
    assert_eq!(b.current_bitrate, 1);
}

#[test]
fn texts_ask_for_music() {
    let mut b = bot(&[]);
    let turn = b.handle_message(1, 2, &text("  around the world "));
    assert_eq!(turn.acts, vec![Act::SaveUsers, say("🔍 Searching for around the world...")]);
    let deezer = b.handle_message(1, 3, &text("https://www.deezer.com/track/1"));
    assert_eq!(deezer.acts, vec![Act::SaveUsers, say("⏳ Queuing track...")]);
    let spotify = b.handle_message(1, 4, &text("https://open.spotify.com/track/1"));
    assert_eq!(spotify.acts, vec![Act::SaveUsers, say("🎵 Looking up Spotify link...")]);
    let short = b.handle_message(1, 5, &text("https://link.deezer.com/s/1"));
    assert_eq!(short.acts, vec![Act::SaveUsers]);
    assert_eq!(
        short.task,
        Task::ShortLink(ShortLinkTask { url: "https://link.deezer.com/s/1".to_string() })
    );
    assert_eq!(b.handle_message(1, 6, &Incoming::Other), done(vec![Act::SaveUsers]));
    assert_eq!(
        b.handle_message(1, 7, &text("ℹ️ Help")),
        done(vec![Act::SaveUsers, say(SHORT_GUIDE)])
    );
    assert_eq!(
        b.handle_message(1, 8, &text("📊 Check status")).task,
        Task::Status(StatusTask { by_button: true })
    );
}

#[test]
fn offered_voice_notes_find_their_file() {
    let mut b = bot(&[("AUDD_API_KEY", "k")]);
    let turn = b.handle_voice_note(9, 31, "f1");
    assert_eq!(
        turn,
        done(vec![Act::Send {
            slot: Slot::Status,
            text: "🎤 What should I do with this voice note?".to_string(),
            keyboard: Keyboard::Inline(vec![
                vec![Button {
                    label: "🎵 Recognize the song".to_string(),
                    data: "vr:31".to_string(),
                }],
                vec![Button { label: "❌ Cancel".to_string(), data: "cancel".to_string() }],
            ]),
        }])
    );
    assert_eq!(b.users.entry(0).0, 9);
    match b.handle_callback(Some("vr:31"), true).task {
        Task::Fetch(t) => assert_eq!(t.file_id, "f1"),
        other => panic!("no download: {:?}", other),
    }
    let mut off = bot(&[]);
    assert_eq!(
        off.handle_voice_note(9, 31, "f1"),
        done(vec![say(
            "⚠️ Voice features are not configured or disabled.\nCheck /settings or ask your admin to add API keys."
        )])
    );
    assert_eq!(off.pending_voices.get("31"), None);
}

#[test]
fn registered_users_are_notified() {
    let mut b = bot(&[]);
    let s = UserSettings { restart_notifications: true, ..UserSettings::default() };
    let shown = || Act::Send {
        slot: Slot::Status,
        text: "🔔 Restart notifications: ON".to_string(),
        keyboard: Keyboard::Reply(settings_keyboard(&s, &config(&[]), 9)),
    };
    assert_eq!(b.handle_command(4, Command::Register), done(vec![Act::SaveUsers, shown()]));
    assert_eq!(
        b.handle_message(5, 2, &text(" /register\n")),
        done(vec![Act::SaveUsers, Act::SaveUsers, shown()])
    );
    b.handle_command(4, Command::Register);
    b.handle_message(6, 3, &text("/registered"));
    assert_eq!(b.users.all_with_notifications(), vec![4, 5]);
    assert_eq!(b.users.len(), 3);
}

#[test]
fn search_results_can_be_queued() {
    let mut b = bot(&[]);
    let task = match b.handle_message(1, 2, &text("air")).task {
        Task::Search(t) => t,
        other => panic!("no search: {:?}", other),
    };
    let found = vec![
        Found { title: "A".to_string(), artist: "B".to_string(), link: "l1".to_string() },
        Found { title: "C".to_string(), artist: "D".to_string(), link: "l2".to_string() },
    ];
    let rows = match task.finish(Ok(found)).acts.remove(0) {
        Act::Edit { keyboard: Keyboard::Inline(rows), .. } => rows,
        other => panic!("no buttons: {:?}", other),
    };
    match b.handle_callback(Some(&rows[1][0].data), true).task {
        Task::Queue(t) => assert_eq!(t.url, "l2"),
        other => panic!("no queuing: {:?}", other),
    }
    assert_eq!(b.handle_callback(Some(&rows[2][0].data), true), done(vec![show("Cancelled.")]));
}

#[test]
fn voice_button_data_is_short() {
    let mut b = bot(&BOTH);
    let mut turn = b.handle_message(1, i32::MIN, &voice(&"f".repeat(200)));
    match turn.acts.remove(2) {
        Act::Send { keyboard: Keyboard::Inline(rows), .. } => {
            assert_eq!(rows[0][0].data, "vt:-2147483648");
            assert!(rows.iter().all(|row| row[0].data.len() <= 64));
        },
        other => panic!("no buttons: {:?}", other),
    }
}
