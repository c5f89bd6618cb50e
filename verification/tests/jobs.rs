use teleemix::jobs::{
    push_track_list, JobAction, JobEvent, JobRun, JobTrack, Jobs, PlaylistJob,
};
use teleemix::mediaserver::MediaServer;

fn track(title: &str, artist: &str, uuid: &str) -> JobTrack {
    JobTrack { title: title.to_string(), artist: artist.to_string(), uuid: uuid.to_string() }
}

fn job(id: &str, tracks: Vec<JobTrack>) -> PlaylistJob {
    PlaylistJob { id: id.to_string(), chat_id: 5, name: "Mix".to_string(), tracks }
}

fn plex() -> MediaServer {
    MediaServer::Plex { url: "http://p".to_string(), token: "t".to_string() }
}

fn queue(list: &[(&str, &str)]) -> JobEvent {
    JobEvent::Queue(Some(list.iter().map(|(a, b)| (a.to_string(), b.to_string())).collect()))
}

fn find(title: &str, artist: &str) -> JobAction {
    JobAction::Find { title: title.to_string(), artist: artist.to_string() }
}

fn notify(text: &str) -> JobAction {
    JobAction::Notify(text.to_string())
}

/// Takes a run that is about to connect to the point where tracks are looked for.
fn to_library(run: JobRun) -> JobRun {
    assert_eq!(run.action(), JobAction::Connect);
    let run = run.advance(JobEvent::Connected(true));
    assert_eq!(run.action(), JobAction::Scan);
    let run = run.advance(JobEvent::Done);
    assert_eq!(run.action(), JobAction::Sleep(60));
    let run = run.advance(JobEvent::Done);
    assert_eq!(run.action(), JobAction::AskScan);
    run.advance(JobEvent::Scanning(false))
}

/// Lets a run end: the job is removed.
fn removed(run: JobRun, id: &str) {
    assert_eq!(run.action(), JobAction::Remove(id.to_string()));
    assert_eq!(run.advance(JobEvent::Done).action(), JobAction::Finish);
}

#[test]
fn jobs_are_kept_until_removed() {
    let mut jobs = Jobs::new();
    jobs.add(job("a", vec![]));
    jobs.add(job("b", vec![track("T", "", "")]));
    jobs.add(job("a", vec![]));
    assert_eq!(jobs.len(), 3);
    jobs.remove("a");
    assert_eq!(jobs.resume_all(), vec![job("b", vec![track("T", "", "")])]);
    jobs.remove("c");
    assert_eq!(jobs.len(), 1);
    jobs.remove("b");
    assert!(jobs.resume_all().is_empty());
}

#[test]
fn tracks_are_listed() {
    let mut text = "Missing:\n".to_string();
    push_track_list(&mut text, &vec![track("T", "A", ""), track("U", "", "")]);
    assert_eq!(text, "Missing:\n• T — A\n• U\n");
    let mut long = String::new();
    push_track_list(&mut long, &vec![track(&"é".repeat(81), "", ""), track(&"é".repeat(80), "", "")]);
    assert_eq!(long, format!("• {}…\n• {}\n", "é".repeat(79), "é".repeat(80)));
}

#[test]
fn long_lists_are_cut() {
    let tracks: Vec<JobTrack> = (0..12).map(|i| track(&format!("t{}", i), "", "")).collect();
    let mut text = String::new();
    push_track_list(&mut text, &tracks);
    assert!(text.starts_with("• t0\n• t1\n"));
    assert!(text.ends_with("• t9\n…and 2 more\n"));
    let mut ten = String::new();
    push_track_list(&mut ten, &tracks[..10].to_vec());
    assert!(ten.ends_with("• t9\n"));
}

#[test]
fn downloaded_playlists_are_rebuilt_at_once() {
    let run = JobRun::new(job("j", vec![track("T", "A", ""), track("U", "B", "")]), Some(&plex()));
    let run = to_library(run);
    assert_eq!(run.action(), find("T", "A"));
    let run = run.advance(JobEvent::Found(Some("1".to_string())));
    assert_eq!(run.action(), find("U", "B"));
    let run = run.advance(JobEvent::Found(Some("2".to_string())));
    assert_eq!(
        run.action(),
        JobAction::Rebuild {
            name: "Mix".to_string(),
            ids: vec!["1".to_string(), "2".to_string()],
        }
    );
    let run = run.advance(JobEvent::Rebuilt(Ok(())));
    assert_eq!(run.action(), notify("🎧 Playlist \"Mix\" rebuilt in Plex: 2/2 tracks."));
    removed(run.advance(JobEvent::Done), "j");
}

#[test]
fn downloads_are_waited_for() {
    let tracks = vec![track("T", "A", "k1"), track("U", "B", "k2"), track("V", "C", "")];
    let run = JobRun::new(job("j", tracks), Some(&plex()));
    assert_eq!(run.action(), JobAction::AskQueue);
    let run = run.advance(queue(&[("k1", "inQueue"), ("k2", "downloading")]));
    assert_eq!(run.action(), JobAction::Sleep(30));
    let run = run.advance(JobEvent::Done);
    assert_eq!(run.action(), JobAction::AskQueue);
    let run = run.advance(JobEvent::Queue(None));
    assert_eq!(run.action(), JobAction::Sleep(30));
    let run = run.advance(JobEvent::Done).advance(queue(&[("k1", "completed"), ("k2", "failed")]));
    let run = to_library(run);
    assert_eq!(run.action(), find("T", "A"));
    let run = run.advance(JobEvent::Found(Some("1".to_string())));
    assert_eq!(run.action(), find("V", "C"));
    let run = run.advance(JobEvent::Found(Some("3".to_string())));
    let run = run.advance(JobEvent::Rebuilt(Err("no".to_string())));
    assert_eq!(
        run.action(),
        notify(
            "❌ Playlist \"Mix\": failed to create the playlist in Plex: no\n\n⚠️ 1 download(s) failed:\n• U — B\n"
        )
    );
    removed(run.advance(JobEvent::Done), "j");
}

#[test]
fn progress_is_told_now_and_then() {
    let mut run = JobRun::new(job("j", vec![track("T", "A", "k1")]), Some(&plex()));
    let mut asked: usize = 0;
    let mut told: usize = 0;
    while asked < 240 {
        match run.action() {
            JobAction::AskQueue => {
                asked += 1;
                run = run.advance(queue(&[("k1", "downloading")]));
            },
            JobAction::SendProgress(text) => {
                assert_eq!(told, 0);
                assert_eq!(asked, 10);
                assert_eq!(
                    text,
                    "⏳ Playlist \"Mix\" — 1 track(s) still downloading. Next check in 30 s."
                );
                told += 1;
                run = run.advance(JobEvent::Sent(true));
            },
            JobAction::EditProgress(_) => {
                assert_eq!(asked % 10, 0);
                told += 1;
                run = run.advance(JobEvent::Done);
            },
            JobAction::Sleep(30) => run = run.advance(JobEvent::Done),
            other => panic!("unexpected: {:?}", other),
        }
    }
    assert_eq!(told, 23);
    assert_eq!(run.action(), JobAction::DeleteProgress);
    assert_eq!(run.advance(JobEvent::Done).action(), JobAction::Connect);
}

#[test]
fn unsent_progress_is_tried_again() {
    let mut run = JobRun::new(job("j", vec![track("T", "A", "k1")]), Some(&plex()));
    let mut sent: usize = 0;
    let mut asked: usize = 0;
    while asked < 20 {
        run = match run.action() {
            JobAction::AskQueue => {
                asked += 1;
                run.advance(JobEvent::Queue(None))
            },
            JobAction::SendProgress(_) => {
                sent += 1;
                run.advance(JobEvent::Sent(false))
            },
            _ => run.advance(JobEvent::Done),
        };
    }
    assert_eq!(sent, 1);
    assert!(matches!(run.action(), JobAction::SendProgress(_)));
    let run = run.advance(JobEvent::Sent(false)).advance(JobEvent::Done).advance(queue(&[]));
    assert_eq!(run.action(), JobAction::Connect);
}

#[test]
fn jobs_without_server_are_dropped() {
    removed(JobRun::new(job("j", vec![track("T", "A", "")]), None), "j");
}

#[test]
fn jobs_without_downloads_say_so() {
    let run = JobRun::new(job("j", vec![track("T", "A", "k1")]), Some(&plex()));
    let run = run.advance(queue(&[("k1", "failed")]));
    assert_eq!(
        run.action(),
        notify("😕 Playlist \"Mix\": all downloads failed, nothing to rebuild in Plex.")
    );
    removed(run.advance(JobEvent::Done), "j");
}

#[test]
fn jobs_are_kept_for_a_server_out_of_reach() {
    let mut run = JobRun::new(job("j", vec![track("T", "A", "")]), Some(&plex()));
    for _ in 0..2 {
        assert_eq!(run.action(), JobAction::Connect);
        run = run.advance(JobEvent::Connected(false));
        assert_eq!(run.action(), JobAction::Sleep(300));
        run = run.advance(JobEvent::Done);
    }
    run = run.advance(JobEvent::Connected(false));
    assert_eq!(
        run.action(),
        notify(
            "⚠️ Playlist \"Mix\" downloaded, but I couldn't reach Plex.\nThe job is saved and will retry on the next bot restart."
        )
    );
    assert_eq!(run.advance(JobEvent::Done).action(), JobAction::Finish);
}

#[test]
fn scans_are_waited_for() {
    let run = JobRun::new(job("j", vec![track("T", "A", "")]), Some(&plex()));
    let mut run = run.advance(JobEvent::Connected(true)).advance(JobEvent::Done).advance(JobEvent::Done);
    let mut pauses: usize = 0;
    while run.action() == JobAction::AskScan {
        run = run.advance(JobEvent::Scanning(true));
        if run.action() == JobAction::Sleep(10) {
            pauses += 1;
            run = run.advance(JobEvent::Done);
        }
    }
    assert_eq!(pauses, 30);
    assert_eq!(run.action(), find("T", "A"));
}

#[test]
fn missing_tracks_are_looked_for_again() {
    let tracks = vec![track("T", "A", ""), track("U", "B", ""), track("V", "", "")];
    let run = to_library(JobRun::new(job("j", tracks), Some(&plex())));
    let run = run.advance(JobEvent::Found(None)).advance(JobEvent::Found(Some("2".to_string())));
    let mut run = run.advance(JobEvent::Found(None));
    let mut passes: usize = 1;
    while run.action() == JobAction::Sleep(30) {
        run = run.advance(JobEvent::Done);
        passes += 1;
        assert_eq!(run.action(), find("T", "A"));
        run = run.advance(JobEvent::Found(None));
        assert_eq!(run.action(), find("V", ""));
        run = run.advance(JobEvent::Found(None));
    }
    assert_eq!(passes, 12);
    assert_eq!(
        run.action(),
        JobAction::Rebuild { name: "Mix".to_string(), ids: vec!["2".to_string()] }
    );
    let run = run.advance(JobEvent::Rebuilt(Ok(())));
    assert_eq!(
        run.action(),
        notify(
            "🎧 Playlist \"Mix\" rebuilt in Plex: 1/3 tracks.\n\n😕 2 track(s) not found in the library:\n• T — A\n• V\n"
        )
    );
}

#[test]
fn empty_libraries_are_reported() {
    let run = to_library(JobRun::new(job("j", vec![track("T", "A", "")]), Some(&plex())));
    let mut run = run.advance(JobEvent::Found(None));
    while run.action() == JobAction::Sleep(30) {
        run = run.advance(JobEvent::Done).advance(JobEvent::Found(None));
    }
    assert_eq!(
        run.action(),
        notify(
            "😕 Playlist \"Mix\": none of the downloaded tracks showed up in the Plex library, so I couldn't build the playlist."
        )
    );
    removed(run.advance(JobEvent::Done), "j");
}

#[test]
fn foreign_events_change_nothing() {
    let run = JobRun::new(job("j", vec![track("T", "A", "")]), Some(&plex()));
    let run = run.advance(JobEvent::Done).advance(JobEvent::Sent(true)).advance(queue(&[]));
    assert_eq!(run.action(), JobAction::Connect);
}
