use teleemix::config::Config;
use teleemix::deemix::Found;
use teleemix::env::{get_var, get_var_or};
use teleemix::keyboard::{
    bitrate_label, choice_buttons, main_keyboard, next_bitrate, read_callback, read_press,
    result_buttons, settings_keyboard, Button, Callback, Press,
};
use teleemix::users::{Toggle, UserSettings, Users};

fn vars(list: &[(&str, &str)]) -> Vec<(String, String)> {
    list.iter().map(|(a, b)| (a.to_string(), b.to_string())).collect()
}

fn config(list: &[(&str, &str)]) -> Config {
    Config::from_env(&vars(list))
}

#[test]
fn variables_are_looked_up() {
    let v = vars(&[("A", "1"), ("B", "")]);
    assert_eq!(get_var(&v, "A"), Some("1".to_string()));
    assert_eq!(get_var(&v, "B"), Some("".to_string()));
    assert_eq!(get_var(&v, "C"), None);
    assert_eq!(get_var_or(&v, "C", "x"), "x");
    assert_eq!(get_var_or(&v, "B", "x"), "");
}

#[test]
fn configuration_has_defaults() {
    let c = config(&[]);
    assert_eq!(
        c,
        Config {
            deemix_url: "http://localhost:6595".to_string(),
            deemix_arl: String::new(),
            compose_file: "/compose/docker-compose.yml".to_string(),
            service_name: "teleemix".to_string(),
            env_file: "/app/.env".to_string(),
            users_file: "/app/users.json".to_string(),
            audd_api_key: String::new(),
            openai_api_key: String::new(),
            whisper_url: String::new(),
            deemix_bitrate: 9,
            deemix_bitrate_lock: false,
        }
    );
    assert!(!c.audd_enabled() && !c.whisper_enabled());
}

#[test]
fn configuration_is_read() {
    let c = config(&[
        ("DEEMIX_URL", "http://d"),
        ("DEEMIX_BITRATE", "3"),
        ("DEEMIX_BITRATE_LOCK", "TRUE"),
        ("AUDD_API_KEY", "k"),
        ("WHISPER_URL", "http://w"),
    ]);
    assert_eq!(c.deemix_url, "http://d");
    assert_eq!(c.deemix_bitrate, 3);
    assert!(c.deemix_bitrate_lock);
    assert!(c.audd_enabled() && c.whisper_enabled());
    assert!(config(&[("OPENAI_API_KEY", "k")]).whisper_enabled());
    assert_eq!(config(&[("DEEMIX_BITRATE", "300")]).deemix_bitrate, 9);
    assert_eq!(config(&[("DEEMIX_BITRATE", "")]).deemix_bitrate, 9);
    assert!(!config(&[("DEEMIX_BITRATE_LOCK", "yes")]).deemix_bitrate_lock);
}

#[test]
fn qualities_cycle() {
    assert_eq!(bitrate_label(9), "FLAC (lossless)");
    assert_eq!(bitrate_label(3), "MP3 320kbps");
    assert_eq!(bitrate_label(1), "MP3 128kbps");
    assert_eq!(bitrate_label(4), "Unknown");
    assert_eq!(next_bitrate(9), 3);
    assert_eq!(next_bitrate(3), 1);
    assert_eq!(next_bitrate(1), 9);
    assert_eq!(next_bitrate(200), 9);
}

#[test]
fn settings_are_shown_as_they_are() {
    let s = UserSettings::default();
    let c = config(&[("AUDD_API_KEY", "k")]);
    assert_eq!(
        settings_keyboard(&s, &c, 9),
        vec![
            vec!["🔕 Restart notifications: OFF".to_string()],
            vec!["🎤 Voice search: OFF".to_string()],
            vec!["🎵 Song recognition: ON".to_string()],
            vec!["🎚️ Quality: FLAC (lossless) (tap to change)".to_string()],
            vec!["🔑 Update ARL".to_string()],
            vec!["🔙 Back to menu".to_string()],
        ]
    );
    let locked = config(&[("DEEMIX_BITRATE_LOCK", "true"), ("OPENAI_API_KEY", "k")]);
    let loud = s.toggle(Toggle::RestartNotifications);
    let shown = settings_keyboard(&loud, &locked, 1);
    assert_eq!(shown[0][0], "🔔 Restart notifications: ON");
    assert_eq!(shown[1][0], "🎤 Voice search: ON");
    assert_eq!(shown[3][0], "🔒 Quality: MP3 128kbps (locked)");
}

#[test]
fn the_menu_offers_what_works() {
    let s = UserSettings::default();
    let bare = main_keyboard(&s, &config(&[]));
    assert_eq!(
        bare,
        vec![
            vec!["🔍 Search a track".to_string(), "💿 Search an album".to_string()],
            vec!["🟢 From Spotify link".to_string(), "🎵 From Deezer URL".to_string()],
            vec!["📊 Check status".to_string(), "⚙️ Settings".to_string()],
            vec!["ℹ️ Help".to_string()],
        ]
    );
    let both = config(&[("AUDD_API_KEY", "k"), ("WHISPER_URL", "w")]);
    assert_eq!(
        main_keyboard(&s, &both)[2],
        vec!["🎤 Voice search".to_string(), "🎵 Recognize song".to_string()]
    );
    let quiet = s.toggle(Toggle::VoiceSearch);
    assert_eq!(main_keyboard(&quiet, &both)[2], vec!["🎵 Recognize song".to_string()]);
    let silent = quiet.toggle(Toggle::SongRecognition);
    assert_eq!(main_keyboard(&silent, &both), bare);
}

#[test]
fn buttons_are_pressed_by_their_labels() {
    assert_eq!(read_press("🔍 Search a track"), Press::SearchTrack);
    assert_eq!(read_press("🎤 Voice search"), Press::VoiceSearch);
    assert_eq!(read_press("🎤 Voice search: ON"), Press::Turn(Toggle::VoiceSearch));
    assert_eq!(read_press("🔔 Restart notifications: ON"), Press::Turn(Toggle::RestartNotifications));
    assert_eq!(read_press("🔕 Restart notifications:"), Press::Turn(Toggle::RestartNotifications));
    assert_eq!(read_press("🎵 Song recognition: OFF"), Press::Turn(Toggle::SongRecognition));
    assert_eq!(read_press("🎚️ Quality: anything"), Press::ChangeQuality);
    assert_eq!(read_press("🔒 Quality: x"), Press::QualityLocked);
    assert_eq!(read_press("ℹ️ Help"), Press::Help);
    assert_eq!(read_press("/register"), Press::Register);
    assert_eq!(read_press("help"), Press::Nothing);
    assert_eq!(read_press(""), Press::Nothing);
}

#[test]
fn every_shown_button_works() {
    let c = config(&[("AUDD_API_KEY", "k"), ("WHISPER_URL", "w")]);
    let s = UserSettings::default();
    for row in main_keyboard(&s, &c).iter().chain(settings_keyboard(&s, &c, 3).iter()) {
        for label in row {
            assert_ne!(read_press(label), Press::Nothing, "{}", label);
        }
    }
}

#[test]
fn results_become_buttons() {
    let list = vec![
        Found { title: "T".to_string(), artist: "A".to_string(), link: "http://l".to_string() },
        Found { title: "x".repeat(70), artist: "A".to_string(), link: String::new() },
    ];
    let rows = result_buttons("🎵", &list);
    assert_eq!(rows.len(), 3);
    assert_eq!(
        rows[0],
        vec![Button { label: "🎵 T — A".to_string(), data: "dl:http://l".to_string() }]
    );
    assert_eq!(rows[1][0].label, format!("🎵 {}...", "x".repeat(55)));
    assert_eq!(rows[1][0].label.chars().count(), 60);
    assert_eq!(rows[1][0].data, "dl:");
    assert_eq!(rows[2], vec![Button { label: "❌ Cancel".to_string(), data: "cancel".to_string() }]);
    let fits = vec![Found {
        title: "x".repeat(54),
        artist: "A".to_string(),
        link: String::new(),
    }];
    let label = &result_buttons("💿", &fits)[0][0].label;
    assert_eq!(label, &format!("💿 {} — A", "x".repeat(54)));
    assert_eq!(label.chars().count(), 60);
}

#[test]
fn button_data_is_read_back() {
    assert_eq!(read_callback("cancel"), Callback::Cancel);
    assert_eq!(read_callback("dl:http://l"), Callback::Download("http://l".to_string()));
    assert_eq!(read_callback("dl:"), Callback::Download(String::new()));
    assert_eq!(read_callback("vt:12"), Callback::Transcribe("12".to_string()));
    assert_eq!(read_callback("vr:12"), Callback::Recognize("12".to_string()));
    assert_eq!(read_callback("voice_search:1"), Callback::Unknown);
    assert_eq!(read_callback("cancelled"), Callback::Unknown);
}

#[test]
fn choices_are_only_those_that_work() {
    let rows = choice_buttons(true, "V", "v1".to_string(), false, "S", "s1".to_string());
    assert_eq!(rows.len(), 2);
    assert_eq!(rows[0], vec![Button { label: "V".to_string(), data: "v1".to_string() }]);
    let both = choice_buttons(true, "V", "v1".to_string(), true, "S", "s1".to_string());
    assert_eq!(both[1][0].data, "s1");
    assert_eq!(both[2][0].data, "cancel");
}

#[test]
fn new_users_have_the_default_settings() {
    let s = UserSettings::default();
    assert!(!s.restart_notifications && s.voice_search && s.song_recognition);
    let mut users = Users::new();
    assert_eq!(users.get_or_create(7), s);
    assert_eq!(users.get_or_create(7), s);
    assert_eq!(users.len(), 1);
    assert_eq!(users.entry(0), (7, s));
}

#[test]
fn settings_belong_to_one_user() {
    let mut users = Users::new();
    users.get_or_create(1);
    users.get_or_create(2);
    let turned = users.update(1, Toggle::RestartNotifications);
    assert!(turned.restart_notifications);
    assert_eq!(users.get_or_create(1), turned);
    assert_eq!(users.get_or_create(2), UserSettings::default());
    assert_eq!(users.all_with_notifications(), vec![1]);
    users.update(3, Toggle::RestartNotifications);
    assert_eq!(users.all_with_notifications(), vec![1, 3]);
    users.update(1, Toggle::RestartNotifications);
    assert_eq!(users.get_or_create(1), UserSettings::default());
    assert_eq!(users.all_with_notifications(), vec![3]);
    assert_eq!(users.len(), 3);
}

#[test]
fn nobody_is_told_of_a_restart_twice() {
    let on = UserSettings { restart_notifications: true, ..UserSettings::default() };
    let mut users = Users::new();
    users.put(9, on);
    users.put(4, on);
    users.put(9, on);
    users.get_or_create(4);
    users.get_or_create(6);
    assert_eq!(users.all_with_notifications(), vec![9, 4]);
    assert_eq!(users.len(), 3);
}

#[test]
fn stored_users_are_put_back() {
    let mut users = Users::new();
    let s = UserSettings { restart_notifications: true, voice_search: false, song_recognition: false };
    users.put(5, s);
    assert_eq!(users.get_or_create(5), s);
    users.put(5, UserSettings::default());
    assert_eq!(users.len(), 1);
    assert_eq!(users.get_or_create(5), UserSettings::default());
    assert!(!s.get(Toggle::SongRecognition) && s.get(Toggle::RestartNotifications));
}
