use teleemix::deemix::{Found, QueueStatus, SearchKind};
use teleemix::keyboard::Button;
use teleemix::spotify::SpotifyMeta;
use teleemix::turn::{
    do_search, handle_spotify, handle_updatearl, queue_url, Act, FetchError, FetchTask, Keyboard,
    MetaTask, OdesliTask, Origin, Purpose, QueueTask, RecognizeTask, SearchTask, ShortLinkTask,
    Slot, StatusTask, Task, TranscribeTask, Turn, Wish, WriteEnvTask,
};
use teleemix::voice::RecognitionResult;

fn say(text: &str) -> Act {
    Act::Send { slot: Slot::Status, text: text.to_string(), keyboard: Keyboard::Bare }
}

fn show(slot: Slot, text: &str) -> Act {
    Act::Edit { slot, text: text.to_string(), keyboard: Keyboard::Bare }
}

fn ends(turn: Turn, acts: Vec<Act>) {
    assert_eq!(turn, Turn { acts, task: Task::Done });
}

fn heading(task: &SearchTask) -> &str {
    match &task.wish {
        Wish::Offer { heading, .. } => heading,
        Wish::QueueFirst => panic!("nothing is offered"),
    }
}

fn song() -> RecognitionResult {
    RecognitionResult {
        title: "T".to_string(),
        artist: "A".to_string(),
        deezer_url: None,
        spotify_url: None,
        song_link: None,
    }
}

fn queue_of(task: Task) -> QueueTask {
    match task {
        Task::Queue(t) => t,
        other => panic!("no queuing: {:?}", other),
    }
}

#[test]
fn searches_show_their_results() {
    let turn = do_search("daft punk", SearchKind::Album);
    assert_eq!(turn.acts, vec![say("🔍 Searching for daft punk...")]);
    let task = match turn.task {
        Task::Search(t) => t,
        other => panic!("no search: {:?}", other),
    };
    assert_eq!((task.query.as_str(), task.kind), ("daft punk", SearchKind::Album));
    let found = vec![Found {
        title: "Discovery".to_string(),
        artist: "Daft Punk".to_string(),
        link: "l".to_string(),
    }];
    ends(
        task.finish(Ok(found)),
        vec![Act::Edit {
            slot: Slot::Status,
            text: "Results for daft punk:".to_string(),
            keyboard: Keyboard::Inline(vec![
                vec![Button {
                    label: "💿 Discovery — Daft Punk".to_string(),
                    data: "dl:l".to_string(),
                }],
                vec![Button { label: "❌ Cancel".to_string(), data: "cancel".to_string() }],
            ]),
        }],
    );
}

#[test]
fn searches_say_what_went_wrong() {
    let task = |q: &str| match do_search(q, SearchKind::Track).task {
        Task::Search(t) => t,
        other => panic!("no search: {:?}", other),
    };
    ends(task("x").finish(Ok(Vec::new())), vec![show(Slot::Status, "😕 No results found.")]);
    ends(
        task("x").finish(Err("down".to_string())),
        vec![show(Slot::Status, "❌ Search failed: down")],
    );
}

#[test]
fn deezer_links_are_queued() {
    let turn = queue_url("https://www.deezer.com/en/album/302127");
    assert_eq!(turn.acts, vec![say("⏳ Queuing album...")]);
    let task = queue_of(turn.task);
    assert_eq!(task.url, "https://www.deezer.com/en/album/302127");
    ends(task.finish(Ok(())), vec![show(Slot::Status, "✅ Album added to queue!")]);
    let again = queue_of(queue_url("https://deezer.com/track/1").task);
    ends(
        again.finish(Err("NotLoggedIn".to_string())),
        vec![show(Slot::Status, "❌ Failed to queue: NotLoggedIn")],
    );
    ends(
        queue_url("https://example.org"),
        vec![say("❌ That doesn't look like a valid Deezer URL.")],
    );
}

#[test]
fn short_links_are_followed() {
    let task = || ShortLinkTask { url: "https://link.deezer.com/s/1".to_string() };
    let turn = task().finish(Some("https://www.deezer.com/playlist/9".to_string()));
    assert_eq!(turn.acts, vec![say("⏳ Queuing playlist...")]);
    ends(task().finish(None), vec![say("❌ Could not resolve that link.")]);
}

#[test]
fn spotify_links_are_searched_for() {
    let turn = handle_spotify("https://open.spotify.com/album/1");
    assert_eq!(turn.acts, vec![say("🎵 Looking up Spotify link...")]);
    let task = match turn.task {
        Task::Spotify(t) => t,
        other => panic!("no lookup: {:?}", other),
    };
    assert_eq!(task.kind, SearchKind::Album);
    let meta = SpotifyMeta { query: "T A".to_string(), label: "T — A".to_string() };
    let next = task.finish(Some(meta));
    assert_eq!(next.acts, vec![show(Slot::Status, "🔍 Found T — A\nSearching on Deezer...")]);
    match next.task {
        Task::Search(t) => {
            assert_eq!((t.query.as_str(), t.kind), ("T A", SearchKind::Album));
            assert_eq!(t.wish, Wish::QueueFirst);
            ends(
                t.finish(Ok(Vec::new())),
                vec![show(Slot::Status, "😕 No results found on Deezer for: T A")],
            );
        },
        other => panic!("no search: {:?}", other),
    }
    match handle_spotify("https://open.spotify.com/track/1").task {
        Task::Spotify(t) => {
            assert_eq!(t.kind, SearchKind::Track);
            ends(
                t.finish(None),
                vec![show(Slot::Status, "❌ Could not resolve Spotify link. Try /search instead.")],
            );
        },
        other => panic!("no lookup: {:?}", other),
    }
}

#[test]
fn spotify_links_are_queued() {
    let lookup = match handle_spotify("https://open.spotify.com/track/1").task {
        Task::Spotify(t) => t,
        other => panic!("no lookup: {:?}", other),
    };
    let meta = SpotifyMeta { query: "T A".to_string(), label: "T — A".to_string() };
    let search = match lookup.finish(Some(meta)).task {
        Task::Search(t) => t,
        other => panic!("no search: {:?}", other),
    };
    assert_eq!(search.kind, SearchKind::Track);
    let found = vec![
        Found { title: "T".to_string(), artist: "A".to_string(), link: "l1".to_string() },
        Found { title: "T2".to_string(), artist: "A".to_string(), link: "l2".to_string() },
    ];
    let turn = search.finish(Ok(found));
    assert_eq!(turn.acts, vec![show(Slot::Status, "⏳ Queuing T — A...")]);
    let queue = queue_of(turn.task);
    assert_eq!(queue.url, "l1");
    ends(queue.finish(Ok(())), vec![show(Slot::Status, "✅ T — A added to queue!")]);
}

#[test]
fn an_arl_is_saved_in_a_file_without_one() {
    match handle_updatearl("abc").task {
        Task::Login(t) => match t.finish(Ok(String::new())).task {
            Task::ReadEnv(r) => assert_eq!(
                r.finish(Ok("X=1".to_string())).task,
                Task::WriteEnv(WriteEnvTask { contents: "X=1\nDEEMIX_ARL=abc\n".to_string() })
            ),
            other => panic!("no reading: {:?}", other),
        },
        other => panic!("no login: {:?}", other),
    }
}

#[test]
fn accepted_arls_are_saved() {
    let turn = handle_updatearl("abc");
    assert_eq!(turn.acts, vec![say("🔄 Validating new ARL...")]);
    let login = match turn.task {
        Task::Login(t) => t,
        other => panic!("no login: {:?}", other),
    };
    let next = login.finish(Ok("ann".to_string()));
    assert_eq!(next.acts, vec![show(Slot::Status, "✅ Logged in!\n🔄 Updating .env file...")]);
    let read = match next.task {
        Task::ReadEnv(t) => t,
        other => panic!("no reading: {:?}", other),
    };
    let turn = read.finish(Ok("X=1\nDEEMIX_ARL=old\n".to_string()));
    assert!(turn.acts.is_empty());
    assert_eq!(
        turn.task,
        Task::WriteEnv(WriteEnvTask { contents: "X=1\nDEEMIX_ARL=abc\n".to_string() })
    );
    ends(
        WriteEnvTask { contents: String::new() }.finish(Ok(())),
        vec![show(
            Slot::Status,
            "✅ ARL updated and saved! Downloads will use the new ARL immediately.",
        )],
    );
    ends(
        WriteEnvTask { contents: String::new() }.finish(Err("read-only".to_string())),
        vec![show(Slot::Status, "⚠️ Logged in but could not update .env: read-only")],
    );
}

#[test]
fn rejected_arls_are_not_saved() {
    match handle_updatearl("abc").task {
        Task::Login(t) => ends(
            t.finish(Err("Login failed (status 0)".to_string())),
            vec![show(Slot::Status, "❌ ARL rejected by deemix: Login failed (status 0)")],
        ),
        other => panic!("no login: {:?}", other),
    }
    match handle_updatearl("abc").task {
        Task::Login(t) => match t.finish(Ok(String::new())).task {
            Task::ReadEnv(r) => ends(
                r.finish(Err("missing".to_string())),
                vec![show(Slot::Status, "⚠️ Logged in but could not read .env: missing")],
            ),
            other => panic!("no reading: {:?}", other),
        },
        other => panic!("no login: {:?}", other),
    }
}

#[test]
fn downloaded_voice_notes_are_worked_on() {
    let fetch = |purpose, origin| FetchTask { file_id: "f".to_string(), purpose, origin };
    let turn = fetch(Purpose::Transcribe, Origin::Callback).finish(Ok(()));
    assert_eq!(turn.acts, vec![show(Slot::Status, "🎤 Transcribing...")]);
    assert_eq!(turn.task, Task::Transcribe(TranscribeTask { origin: Origin::Callback }));
    let asked = fetch(Purpose::Recognize, Origin::Dialogue).finish(Ok(()));
    assert!(asked.acts.is_empty());
    assert_eq!(asked.task, Task::Recognize(RecognizeTask {}));
    ends(
        fetch(Purpose::Recognize, Origin::Dialogue)
            .finish(Err(FetchError::Download("x".to_string()))),
        vec![show(Slot::Status, "❌ Failed to download audio: x")],
    );
    ends(
        fetch(Purpose::Recognize, Origin::Callback).finish(Err(FetchError::Read("x".to_string()))),
        vec![show(Slot::Status, "❌ Failed to read audio: x")],
    );
    assert_eq!(
        fetch(Purpose::Recognize, Origin::Dialogue).finish(Err(FetchError::Read("x".to_string()))),
        Turn { acts: Vec::new(), task: Task::Fail("x".to_string()) }
    );
}

#[test]
fn transcripts_are_searched_for() {
    let turn = TranscribeTask { origin: Origin::Callback }.finish(Ok("air".to_string()));
    assert_eq!(
        turn.acts,
        vec![
            show(Slot::Status, "🔍 I heard: air\nSearching..."),
            Act::Send {
                slot: Slot::Results,
                text: "Results for: air".to_string(),
                keyboard: Keyboard::Bare,
            },
        ]
    );
    match turn.task {
        Task::Search(t) => {
            assert_eq!(heading(&t), "Results for 'air':");
            assert_eq!(t.slot, Slot::Results);
            ends(t.finish(Ok(Vec::new())), vec![show(Slot::Results, "😕 No results for: air")]);
        },
        other => panic!("no search: {:?}", other),
    }
    match (TranscribeTask { origin: Origin::Dialogue }).finish(Ok("air".to_string())).task {
        Task::Search(t) => assert_eq!(heading(&t), "Results for air:"),
        other => panic!("no search: {:?}", other),
    }
    ends(
        TranscribeTask { origin: Origin::Dialogue }.finish(Ok(String::new())),
        vec![show(Slot::Status, "😕 Could not transcribe anything. Try speaking more clearly.")],
    );
    ends(
        TranscribeTask { origin: Origin::Dialogue }.finish(Err("e".to_string())),
        vec![show(Slot::Status, "❌ Transcription failed: e")],
    );
}

#[test]
fn recognized_songs_are_queued_by_their_own_link() {
    let rec = RecognitionResult {
        deezer_url: Some("d".to_string()),
        song_link: Some("l".to_string()),
        ..song()
    };
    let turn = RecognizeTask {}.finish(Ok(rec));
    assert_eq!(turn.acts, vec![show(Slot::Status, "🎵 Found: T — A\nQueuing...")]);
    let task = queue_of(turn.task);
    assert_eq!(task.url, "d");
    ends(task.finish(Ok(())), vec![show(Slot::Status, "✅ T — A added to queue!")]);
    ends(
        RecognizeTask {}.finish(Err("Song not recognized.".to_string())),
        vec![show(Slot::Status, "❌ Recognition failed: Song not recognized.")],
    );
}

#[test]
fn recognized_songs_are_asked_of_odesli_next() {
    let rec = || RecognitionResult {
        spotify_url: Some("s".to_string()),
        song_link: Some("l".to_string()),
        ..song()
    };
    let odesli = |r: RecognitionResult| match (RecognizeTask {}).finish(Ok(r)).task {
        Task::Odesli(t) => t,
        other => panic!("no question: {:?}", other),
    };
    assert_eq!(
        odesli(rec()),
        OdesliTask {
            song_link: "l".to_string(),
            title: "T".to_string(),
            artist: "A".to_string(),
            spotify_url: Some("s".to_string()),
        }
    );
    assert_eq!(queue_of(odesli(rec()).finish(Some("d".to_string())).task).url, "d");
    let meta = odesli(rec()).finish(None);
    assert!(meta.acts.is_empty());
    assert_eq!(
        meta.task,
        Task::Meta(MetaTask {
            url: "s".to_string(),
            title: "T".to_string(),
            artist: "A".to_string(),
        })
    );
}

#[test]
fn recognized_songs_are_searched_for_at_last() {
    let meta = || MetaTask {
        url: "s".to_string(),
        title: "T".to_string(),
        artist: "A".to_string(),
    };
    let query = |turn: Turn| match turn.task {
        Task::Search(t) => {
            assert_eq!(heading(&t), "Results for T — A:");
            assert_eq!(t.nothing, format!("😕 No results on Deezer for: {}", t.query));
            t.query
        },
        other => panic!("no search: {:?}", other),
    };
    let known = SpotifyMeta { query: "proper title".to_string(), label: String::new() };
    assert_eq!(query(meta().finish(Some(known))), "proper title");
    assert_eq!(query(meta().finish(None)), "T A");
    let bare = RecognizeTask {}.finish(Ok(song()));
    assert_eq!(bare.acts.len(), 2);
    assert_eq!(
        bare.acts[1],
        Act::Send {
            slot: Slot::Results,
            text: "Searching on Deezer...".to_string(),
            keyboard: Keyboard::Bare,
        }
    );
    assert_eq!(query(bare), "T A");
}

#[test]
fn the_queue_is_told() {
    let q = QueueStatus { pending: 2, downloading: 1, done: 10 };
    ends(
        StatusTask { by_button: false }.finish(Ok(q)),
        vec![say("✅ Deemix is reachable\n⬇️ Downloading: 1\n⏳ Pending: 2\n✅ Completed (in queue): 10")],
    );
    ends(
        StatusTask { by_button: true }.finish(Ok(q)),
        vec![say("✅ Deemix is reachable\n⬇️ Downloading: 1\n⏳ Pending: 2\n✅ Completed: 10")],
    );
    let none = QueueStatus { pending: 0, downloading: 0, done: 0 };
    ends(
        StatusTask { by_button: true }.finish(Ok(none)),
        vec![say("✅ Deemix is reachable\n📭 Queue is empty")],
    );
    ends(
        StatusTask { by_button: true }.finish(Err("x".to_string())),
        vec![say("❌ Can't reach deemix: x")],
    );
}
