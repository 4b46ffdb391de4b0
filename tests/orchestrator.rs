use airshipper::cli::{CmdLine, Level};
use airshipper::error::ClientError;
use airshipper::download::{Download, Event, Fetch, Progress, State};
use airshipper::launcher::{Command, Launcher, LauncherState, Message, Snapshot};
use airshipper::process::{OutputChannel, ProcessEvent, ProcessSession, ProcessUpdate};
use airshipper::profile::{get_assets_path, get_log_path, get_profile_path, Channel, Profile, Profiles};
use airshipper::storage::{changelog_section, describe_rendered, description_lines, posts_of_items, Changelog, News, Post};
use airshipper::text::{same_text, split_lines, text_contains};
use airshipper::version::{check, probed_version, update_available};

fn step(s: State, e: Event) -> (State, Option<Progress>) {
    s.step(e)
}

fn launcher() -> Launcher {
    Launcher::new("linux".to_string(), "/data".to_string(), "https://example.net/latest".to_string())
}

fn loaded() -> Launcher {
    let mut l = launcher();
    l.update(Message::Loaded(None));
    l
}

fn update_available_launcher() -> Launcher {
    let mut l = loaded();
    l.update(Message::VersionChecked(Ok("v2".to_string())));
    l
}

#[test]
fn check_compares_tokens_as_strings() {
    assert!(!update_available("abc", "abc"));
    assert!(update_available("abc", "abd"));
    assert!(update_available("1.0", "1.0.0"));
    assert!(update_available("MISSING_ETAG", "abc"));
    assert!(!update_available("MISSING_ETAG", "MISSING_ETAG"));
    assert!(!update_available("", ""));
}

#[test]
fn scenario_same_etag_means_no_update() {
    assert!(!check("abc", Some("abc".to_string())));
}

#[test]
fn scenario_missing_etag_on_first_run() {
    assert_eq!(probed_version(None), "MISSING_ETAG");
    assert!(check("", None));
}

#[test]
fn probed_version_keeps_header_value() {
    assert_eq!(probed_version(Some("W/\"xyz\"".to_string())), "W/\"xyz\"");
}

#[test]
fn scenario_missing_content_length_errors_then_parks() {
    let s = Download::new("https://example.net/file".to_string()).start();
    assert!(matches!(s.fetch(), Fetch::Request(ref u) if u == "https://example.net/file"));
    let (s, p) = step(s, Event::Responded(None));
    assert!(matches!(p, Some(Progress::Errored(ref m)) if m == "could not calculate file size"));
    assert!(s.is_finished());
    assert!(matches!(s.fetch(), Fetch::Park));
    let (s, p) = step(s, Event::Received(10));
    assert!(p.is_none());
    let (s, p) = step(s, Event::Ended);
    assert!(p.is_none());
    assert!(s.is_finished());
}

#[test]
fn download_reports_progress_and_finishes() {
    let s = Download::new("u".to_string()).start();
    let (s, p) = step(s, Event::Responded(Some(100)));
    assert!(matches!(p, Some(Progress::Started)));
    assert!(matches!(s.fetch(), Fetch::NextChunk));
    let (s, p) = step(s, Event::Received(50));
    assert!(matches!(p, Some(Progress::Advanced(ref t, 50)) if t == "50 B / 100 B"));
    let (s, p) = step(s, Event::Received(25));
    assert!(matches!(p, Some(Progress::Advanced(_, 75))));
    let (s, p) = step(s, Event::Received(25));
    assert!(matches!(p, Some(Progress::Advanced(_, 100))));
    assert!(matches!(s, State::Downloading { total: 100, downloaded: 100 }));
    let (s, p) = step(s, Event::Ended);
    assert!(matches!(p, Some(Progress::Finished)));
    assert!(s.is_finished());
    let (_, p) = step(s, Event::Ended);
    assert!(p.is_none());
}

#[test]
fn download_percentage_truncates() {
    let s = State::Downloading { total: 3, downloaded: 0 };
    let (_, p) = step(s, Event::Received(1));
    assert!(matches!(p, Some(Progress::Advanced(_, 33))));
}

#[test]
fn download_text_uses_units() {
    let s = State::Downloading { total: 2000, downloaded: 0 };
    let (_, p) = step(s, Event::Received(1000));
    assert!(matches!(p, Some(Progress::Advanced(ref t, 50)) if t == "1.0 KB / 2.0 KB"));
}

#[test]
fn download_percentages_never_decrease() {
    let mut s = State::Downloading { total: 7, downloaded: 0 };
    let mut last = 0u64;
    for n in [1u64, 2, 1, 3] {
        let (next, p) = step(s, Event::Received(n));
        match p {
            Some(Progress::Advanced(_, q)) => {
                assert!(q >= last);
                last = q;
            },
            _ => panic!("expected progress"),
        }
        s = next;
    }
    assert_eq!(last, 100);
}

#[test]
fn download_of_empty_resource() {
    let s = State::Downloading { total: 0, downloaded: 0 };
    let (s2, p) = step(s, Event::Received(0));
    assert!(matches!(p, Some(Progress::Advanced(_, 100))));
    let (_, p) = step(s2, Event::Ended);
    assert!(matches!(p, Some(Progress::Finished)));
}

#[test]
fn download_short_body_is_an_error() {
    let s = State::Downloading { total: 10, downloaded: 4 };
    let (s, p) = step(s, Event::Ended);
    assert!(matches!(p, Some(Progress::Errored(ref m)) if m == "download ended before the announced size"));
    assert!(s.is_finished());
}

#[test]
fn download_excess_bytes_are_an_error() {
    let s = State::Downloading { total: 10, downloaded: 8 };
    let (s, p) = step(s, Event::Received(3));
    assert!(matches!(p, Some(Progress::Errored(ref m)) if m == "received more bytes than announced"));
    assert!(s.is_finished());
}

#[test]
fn download_transport_failure() {
    let s = Download::new("u".to_string()).start();
    let (s, p) = step(s, Event::Failed("connection refused".to_string()));
    assert!(matches!(p, Some(Progress::Errored(ref m)) if m == "connection refused"));
    assert!(s.is_finished());
    let s = State::Downloading { total: 10, downloaded: 3 };
    let (s, p) = step(s, Event::Failed("reset".to_string()));
    assert!(matches!(p, Some(Progress::Errored(ref m)) if m == "reset"));
    assert!(s.is_finished());
}

#[test]
fn scenario_process_output_then_exit() {
    let lines = split_lines("Loading world\n");
    assert_eq!(lines, vec!["Loading world".to_string()]);
    let mut s = ProcessSession::new();
    let mut out = Vec::new();
    for l in lines {
        out.extend(s.step(ProcessEvent::Line(l)));
    }
    out.extend(s.step(ProcessEvent::Closed(OutputChannel::Stdout)));
    out.extend(s.step(ProcessEvent::Closed(OutputChannel::Stderr)));
    out.extend(s.step(ProcessEvent::Exited(Some(0))));
    assert_eq!(out.len(), 2);
    assert!(matches!(out[0], ProcessUpdate::Line(ref l) if l == "Loading world"));
    assert!(matches!(out[1], ProcessUpdate::Exit(Some(0))));
    assert!(s.is_done());
}

#[test]
fn process_exit_waits_for_both_channels() {
    let mut s = ProcessSession::new();
    assert!(s.step(ProcessEvent::Exited(Some(3))).is_none());
    assert!(s.step(ProcessEvent::Closed(OutputChannel::Stderr)).is_none());
    assert!(matches!(s.step(ProcessEvent::Line("late".to_string())), Some(ProcessUpdate::Line(_))));
    assert!(matches!(s.step(ProcessEvent::Closed(OutputChannel::Stdout)), Some(ProcessUpdate::Exit(Some(3)))));
    assert!(s.step(ProcessEvent::Line("after".to_string())).is_none());
    assert!(s.step(ProcessEvent::Exited(Some(4))).is_none());
}

#[test]
fn process_exit_without_code() {
    let mut s = ProcessSession::new();
    s.step(ProcessEvent::Closed(OutputChannel::Stdout));
    s.step(ProcessEvent::Closed(OutputChannel::Stderr));
    assert!(matches!(s.step(ProcessEvent::Exited(None)), Some(ProcessUpdate::Exit(None))));
}

#[test]
fn profile_paths() {
    let p = Profile::new("/data", "latest", Channel::Nightly, "v1");
    assert_eq!(p.directory, "/data/profiles/latest");
    assert_eq!(p.name, "latest");
    assert_eq!(p.version, "v1");
    assert_eq!(p.voxygen_path("linux"), "/data/profiles/latest/veloren-voxygen");
    assert_eq!(p.voxygen_path("windows"), "/data/profiles/latest/veloren-voxygen.exe");
    assert_eq!(p.version_uri("linux"), "https://download.veloren.net/version/linux/nightly");
    assert_eq!(get_profile_path("/b", "x"), "/b/profiles/x");
    assert_eq!(get_log_path("/b"), "/b/airshipper.log");
    assert_eq!(get_assets_path("/a", "veloren-logo.png"), "/a/veloren-logo.png");
    assert_eq!(Channel::Nightly.name(), "nightly");
}

#[test]
fn profiles_default_and_round_trip() {
    let ps = Profiles::default_in("/data");
    assert_eq!(ps.latest().name, "default");
    assert_eq!(ps.latest().version, "default");
    assert_eq!(ps.latest().directory, "/data/profiles/default");
    let list = ps.to_vec();
    assert_eq!(list.len(), 1);
    let back = Profiles::from_vec(list).unwrap();
    assert_eq!(back.latest().directory, ps.latest().directory);
    assert!(Profiles::from_vec(Vec::new()).is_none());
}

#[test]
fn profiles_set_latest_version() {
    let mut ps = Profiles::default_in("/data");
    ps.set_latest_version("v9".to_string());
    assert_eq!(ps.latest().version, "v9");
    assert_eq!(ps.latest().name, "default");
}

#[test]
fn launcher_startup_commands() {
    let mut l = launcher();
    assert!(matches!(l.state, LauncherState::LoadingSave));
    let cs = l.update(Message::Loaded(None));
    assert!(matches!(l.state, LauncherState::QueryingForUpdates));
    assert_eq!(cs.len(), 3);
    assert!(matches!(cs[0], Command::CheckVersion { ref url, ref known }
        if url == "https://download.veloren.net/version/linux/nightly" && known == "default"));
    assert!(matches!(cs[1], Command::RefreshChangelog { ref known } if known.is_empty()));
    assert!(matches!(cs[2], Command::RefreshNews { ref known } if known.is_empty()));
}

#[test]
fn launcher_loads_snapshot() {
    let mut l = launcher();
    let profiles = Profiles::from_vec(vec![Profile::new("/data", "p", Channel::Nightly, "v1")]).unwrap();
    let snap = Snapshot {
        profiles,
        changelog: Changelog { text: "t".to_string(), version: "c1".to_string() },
        news: News { posts: Vec::new(), version: "n1".to_string() },
    };
    let cs = l.update(Message::Loaded(Some(snap)));
    assert_eq!(l.profiles.latest().version, "v1");
    assert!(matches!(cs[0], Command::CheckVersion { ref known, .. } if known == "v1"));
    assert!(matches!(cs[1], Command::RefreshChangelog { ref known } if known == "c1"));
    assert!(matches!(cs[2], Command::RefreshNews { ref known } if known == "n1"));
}

#[test]
fn launcher_no_update_is_ready() {
    let mut l = loaded();
    let cs = l.update(Message::VersionChecked(Ok("default".to_string())));
    assert!(cs.is_empty());
    assert!(matches!(l.state, LauncherState::ReadyToPlay));
}

#[test]
fn launcher_full_update_cycle() {
    let mut l = update_available_launcher();
    assert!(matches!(l.state, LauncherState::UpdateAvailable));
    let cs = l.update(Message::PlayPressed);
    assert!(matches!(l.state, LauncherState::Downloading));
    assert!(matches!(cs[0], Command::Download { ref url } if url == "https://example.net/latest"));
    l.update(Message::DownloadProgress(Progress::Started));
    l.update(Message::DownloadProgress(Progress::Advanced("x".to_string(), 40)));
    assert_eq!(l.progress, 40);
    let cs = l.update(Message::DownloadProgress(Progress::Finished));
    assert!(matches!(l.state, LauncherState::Installing));
    assert!(matches!(cs[0], Command::Install));
    let cs = l.update(Message::Installed(Ok(())));
    assert!(matches!(l.state, LauncherState::ReadyToPlay));
    assert!(matches!(cs[0], Command::Save));
    assert_eq!(l.profiles.latest().version, "v2");
    let cs = l.update(Message::PlayPressed);
    assert!(matches!(l.state, LauncherState::Playing));
    assert!(matches!(cs[0], Command::Launch { ref binary, ref directory }
        if binary == "/data/profiles/default/veloren-voxygen" && directory == "/data/profiles/default"));
    let cs = l.update(Message::ProcessOutput(ProcessUpdate::Line("hi".to_string())));
    assert!(cs.is_empty());
    let cs = l.update(Message::ProcessOutput(ProcessUpdate::Exit(Some(0))));
    assert!(matches!(l.state, LauncherState::QueryingForUpdates));
    assert!(matches!(cs[0], Command::CheckVersion { ref known, .. } if known == "v2"));
}

#[test]
fn scenario_play_while_downloading_is_ignored() {
    let mut l = update_available_launcher();
    l.update(Message::PlayPressed);
    let cs = l.update(Message::PlayPressed);
    assert!(cs.is_empty());
    assert!(matches!(l.state, LauncherState::Downloading));
}

#[test]
fn play_ignored_while_installing_playing_or_loading() {
    let mut l = launcher();
    assert!(l.update(Message::PlayPressed).is_empty());
    assert!(matches!(l.state, LauncherState::LoadingSave));
    let mut l = update_available_launcher();
    l.update(Message::PlayPressed);
    l.update(Message::DownloadProgress(Progress::Finished));
    assert!(l.update(Message::PlayPressed).is_empty());
    assert!(matches!(l.state, LauncherState::Installing));
    let mut l = loaded();
    l.update(Message::VersionChecked(Ok("default".to_string())));
    l.update(Message::PlayPressed);
    assert!(l.update(Message::PlayPressed).is_empty());
    assert!(matches!(l.state, LauncherState::Playing));
}

#[test]
fn launcher_errors_and_retry() {
    let mut l = loaded();
    l.update(Message::VersionChecked(Err("timeout".to_string())));
    assert!(matches!(l.state, LauncherState::Error(ref e) if e == "timeout"));
    assert_eq!(l.state.status_text(), "timeout");
    assert_eq!(l.state.action_label(), "ERROR");
    assert!(!l.state.action_enabled());
    assert!(l.update(Message::PlayPressed).is_empty());
    let cs = l.update(Message::Retry);
    assert!(matches!(l.state, LauncherState::QueryingForUpdates));
    assert!(matches!(cs[0], Command::CheckVersion { .. }));
    let mut l = update_available_launcher();
    l.update(Message::PlayPressed);
    l.update(Message::DownloadProgress(Progress::Errored("could not calculate file size".to_string())));
    assert!(matches!(l.state, LauncherState::Error(ref e) if e == "could not calculate file size"));
    let mut l = loaded();
    l.update(Message::Saved(Err("disk full".to_string())));
    assert!(matches!(l.state, LauncherState::Error(ref e) if e == "disk full"));
}

#[test]
fn launcher_install_failure() {
    let mut l = update_available_launcher();
    l.update(Message::PlayPressed);
    l.update(Message::DownloadProgress(Progress::Finished));
    l.update(Message::Installed(Err("bad archive".to_string())));
    assert!(matches!(l.state, LauncherState::Error(ref e) if e == "bad archive"));
    assert_eq!(l.profiles.latest().version, "default");
}

#[test]
fn launcher_artifacts_refresh_together() {
    let mut l = loaded();
    let cs = l.update(Message::ChangelogUpdate(Some(Changelog { text: "new".to_string(), version: "c2".to_string() })));
    assert_eq!(l.changelog.text, "new");
    assert_eq!(l.changelog.version, "c2");
    assert!(matches!(cs[0], Command::Save));
    assert!(l.update(Message::NewsUpdate(None)).is_empty());
    assert!(matches!(l.state, LauncherState::QueryingForUpdates));
}

#[test]
fn state_texts() {
    assert_eq!(LauncherState::Downloading.status_text(), "Downloading...");
    assert_eq!(LauncherState::ReadyToPlay.action_label(), "Play");
    assert_eq!(LauncherState::UpdateAvailable.action_label(), "Update");
    assert!(LauncherState::ReadyToPlay.action_enabled());
    assert!(LauncherState::UpdateAvailable.action_enabled());
    assert!(!LauncherState::Playing.action_enabled());
}

#[test]
fn lines_follow_std() {
    let samples = ["", "a", "a\n", "a\r\nb", "\n\nx\n", "one\ntwo\r\n\r\nthree", "\r"];
    for s in samples {
        let expected: Vec<String> = s.lines().map(|l| l.to_string()).collect();
        assert_eq!(split_lines(s), expected, "input {:?}", s);
    }
}

#[test]
fn text_helpers() {
    assert!(text_contains("## [Unreleased] x", "## [Unreleased]"));
    assert!(!text_contains("## [Unrel", "## [Unreleased]"));
    assert!(text_contains("abc", ""));
    assert!(same_text("ab", "ab"));
    assert!(!same_text("ab", "abc"));
}

#[test]
fn changelog_section_between_markers() {
    let body = "# Changelog\n\n## [Unreleased]\n\n### Added\n- thing\n\n## [0.1.0] - 2019\n- old\n";
    assert_eq!(changelog_section(body), "### Added\n- thing\n\n");
    assert_eq!(changelog_section(""), "");
    assert_eq!(changelog_section("no markers\nat all"), "");
    assert_eq!(changelog_section("## [Unreleased]\nskip\nkeep\n"), "keep\n");
}

#[test]
fn changelog_from_response() {
    let c = Changelog::from_response("## [Unreleased]\n\nx\n", None);
    assert_eq!(c.text, "x\n");
    assert_eq!(c.version, "MISSING_ETAG");
    let c = Changelog::from_response("", Some("e1".to_string()));
    assert_eq!(c.version, "e1");
}

#[test]
fn post_description_lines() {
    assert_eq!(description_lines("a\n[banner]\nb\nc\nd"), "a\nb\n");
    assert_eq!(description_lines(""), "");
}

#[test]
fn post_description_is_rendered() {
    let d = Post::process_description(Some("<p>Hello <b>world</b></p>"));
    assert!(d.contains("Hello"));
    assert!(!d.contains("<p>"));
    assert!(!d.contains("**"));
    assert_eq!(Post::process_description(None), "No description found.");
    let plain = describe_rendered("*stars*\n");
    assert!(!plain.contains('*'));
    assert!(plain.contains("stars"));
}

#[test]
fn post_from_item_placeholders() {
    let p = Post::from_item(None, None, None);
    assert_eq!(p.title, "Missing title");
    assert_eq!(p.description, "No description found.");
    assert_eq!(p.button_url, "https://www.veloren.net");
    let p = Post::from_item(Some("T"), None, Some("https://l"));
    assert_eq!(p.title, "T");
    assert_eq!(p.button_url, "https://l");
}

#[test]
fn news_keeps_fifteen_posts() {
    let items: Vec<(Option<String>, Option<String>, Option<String>)> =
        (0..20).map(|i| (Some(format!("p{}", i)), None, None)).collect();
    let posts = posts_of_items(&items);
    assert_eq!(posts.len(), 15);
    assert_eq!(posts[14].title, "p14");
    assert_eq!(posts[0].description, "No description found.");
}

#[test]
fn news_from_feed() {
    let xml = "<?xml version=\"1.0\"?><rss version=\"2.0\"><channel><title>V</title><link>https://veloren.net</link>\
<description>d</description><item><title>First</title><link>https://veloren.net/a</link>\
<description>&lt;p&gt;Hello&lt;/p&gt;</description></item><item><description>x</description></item>\
</channel></rss>";
    let n = News::from_feed(xml.as_bytes(), Some("n".to_string())).unwrap();
    assert_eq!(n.version, "n");
    assert_eq!(n.posts.len(), 2);
    assert_eq!(n.posts[0].title, "First");
    assert_eq!(n.posts[0].button_url, "https://veloren.net/a");
    assert!(n.posts[0].description.contains("Hello"));
    assert!(!n.posts[0].description.contains("<p>"));
    assert_eq!(n.posts[1].title, "Missing title");
    assert_eq!(n.posts[1].button_url, "https://www.veloren.net");
    let e = News::from_feed(b"not a feed", None);
    assert_eq!(e.err(), Some("Failed to parse News".to_string()));
}

#[test]
fn snapshot_profiles_round_trip() {
    let ps = Profiles::from_vec(vec![
        Profile::new("/data", "latest", Channel::Nightly, "v3"),
        Profile::new("/data", "old", Channel::Nightly, "v1"),
    ])
    .unwrap();
    let records: Vec<(String, String, String)> =
        ps.to_vec().iter().map(|p| (p.name.clone(), p.directory.clone(), p.version.clone())).collect();
    let text = ron::to_string(&records).unwrap();
    let read: Vec<(String, String, String)> = ron::from_str(&text).unwrap();
    let back = Profiles::from_vec(
        read.into_iter().map(|(name, directory, version)| Profile { name, channel: Channel::Nightly, directory, version }).collect(),
    )
    .unwrap();
    let a = ps.to_vec();
    let b = back.to_vec();
    assert_eq!(a.len(), b.len());
    for (x, y) in a.iter().zip(b.iter()) {
        assert_eq!((&x.name, x.channel, &x.directory, &x.version), (&y.name, y.channel, &y.directory, &y.version));
    }
}

#[test]
fn cli_levels() {
    let c = |verbose, debug| CmdLine { action: None, verbose, debug };
    assert_eq!(c(0, 0).launcher_log_level(), Level::Info);
    assert_eq!(c(0, 1).launcher_log_level(), Level::Debug);
    assert_eq!(c(0, 5).launcher_log_level(), Level::Trace);
    assert_eq!(c(0, 0).game_log_level(), Level::Warn);
    assert_eq!(c(1, 0).game_log_level(), Level::Info);
    assert_eq!(c(2, 0).game_log_level(), Level::Debug);
    assert_eq!(c(3, 0).game_log_level(), Level::Trace);
    assert_eq!(Level::Warn.name(), "WARN");
}

#[test]
fn client_error_messages() {
    assert_eq!(ClientError::IoError("denied".to_string()).message(), "IoError: denied");
    assert_eq!(ClientError::NetworkError("dns".to_string()).message(), "A network error occured: dns");
    assert_eq!(ClientError::SerializeError("x".to_string()).message(), "FATAL: Failed to save state: x");
    assert_eq!(ClientError::DeserializeError("y".to_string()).message(), "FATAL: Failed to load state: y");
    assert_eq!(ClientError::RssError("z".to_string()).message(), "Failed to parse News: z");
    assert_eq!(ClientError::OpenerError("w".to_string()).message(), "Failed to open browser: w");
}

#[test]
fn launcher_spawn_failure_is_an_error() {
    let mut l = loaded();
    l.update(Message::VersionChecked(Ok("default".to_string())));
    l.update(Message::PlayPressed);
    assert!(l.update(Message::LaunchFailed("IoError: not found".to_string())).is_empty());
    assert!(matches!(l.state, LauncherState::Error(ref e) if e == "IoError: not found"));
    let mut l = loaded();
    l.update(Message::LaunchFailed("x".to_string()));
    assert!(matches!(l.state, LauncherState::QueryingForUpdates));
}
