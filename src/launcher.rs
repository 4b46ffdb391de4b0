//! The launcher's state machine: it decides when to check for updates, download,
//! install and launch, and owns the profiles and cached artifacts.
//!
//! `Launcher::update` takes one message (a result of earlier work, or a user
//! action) and returns the commands the caller is to carry out next.
use vstd::prelude::*;
use crate::download::{Progress, ProgressView};
use crate::process::{ProcessUpdate, ProcessUpdateView};
use crate::profile::{
    ProfileView, Profiles, default_profile, join_path, voxygen_file, download_server, channel_name,
};
use crate::storage::{Changelog, ChangelogView, News, NewsView};
use crate::version::update_available;

verus! {

/// What the launcher is doing, as shown to the user.
pub enum LauncherState {
    LoadingSave,
    QueryingForUpdates,
    UpdateAvailable,
    ReadyToPlay,
    Downloading,
    Installing,
    Playing,
    Error(String),
}

pub enum LauncherStateView {
    LoadingSave,
    QueryingForUpdates,
    UpdateAvailable,
    ReadyToPlay,
    Downloading,
    Installing,
    Playing,
    Error(Seq<char>),
}

impl View for LauncherState {
    type V = LauncherStateView;

    open spec fn view(&self) -> LauncherStateView {
        match self {
            LauncherState::LoadingSave => LauncherStateView::LoadingSave,
            LauncherState::QueryingForUpdates => LauncherStateView::QueryingForUpdates,
            LauncherState::UpdateAvailable => LauncherStateView::UpdateAvailable,
            LauncherState::ReadyToPlay => LauncherStateView::ReadyToPlay,
            LauncherState::Downloading => LauncherStateView::Downloading,
            LauncherState::Installing => LauncherStateView::Installing,
            LauncherState::Playing => LauncherStateView::Playing,
            LauncherState::Error(e) => LauncherStateView::Error(e@),
        }
    }
}

/// What is persisted between runs.
pub struct Snapshot {
    pub profiles: Profiles,
    pub changelog: Changelog,
    pub news: News,
}

pub struct SnapshotView {
    pub profiles: Seq<ProfileView>,
    pub changelog: ChangelogView,
    pub news: NewsView,
}

impl View for Snapshot {
    type V = SnapshotView;

    open spec fn view(&self) -> SnapshotView {
        SnapshotView { profiles: self.profiles@, changelog: self.changelog@, news: self.news@ }
    }
}

/// What the launcher is told.
pub enum Message {
    /// The saved snapshot was read; `None` where it was missing or unreadable.
    Loaded(Option<Snapshot>),
    /// The version probe of the active profile answered with this token, or failed.
    VersionChecked(Result<String, String>),
    /// The user pressed the play/update control.
    PlayPressed,
    /// The user asked to try again after an error.
    Retry,
    /// The running download emitted an element.
    DownloadProgress(Progress),
    /// Installing the downloaded build succeeded or failed.
    Installed(Result<(), String>),
    /// The running game emitted an element.
    ProcessOutput(ProcessUpdate),
    /// The game could not be spawned.
    LaunchFailed(String),
    /// A newer changelog, where there is one.
    ChangelogUpdate(Option<Changelog>),
    /// Newer news, where there are some.
    NewsUpdate(Option<News>),
    /// Writing the snapshot succeeded or failed.
    Saved(Result<(), String>),
}

pub enum MessageView {
    Loaded(Option<SnapshotView>),
    VersionChecked(Result<Seq<char>, Seq<char>>),
    PlayPressed,
    Retry,
    DownloadProgress(ProgressView),
    Installed(Result<(), Seq<char>>),
    ProcessOutput(ProcessUpdateView),
    LaunchFailed(Seq<char>),
    ChangelogUpdate(Option<ChangelogView>),
    NewsUpdate(Option<NewsView>),
    Saved(Result<(), Seq<char>>),
}

impl View for Message {
    type V = MessageView;

    open spec fn view(&self) -> MessageView {
        match self {
            Message::Loaded(s) => MessageView::Loaded(
                match s {
                    Some(s) => Some(s@),
                    None => None,
                },
            ),
            Message::VersionChecked(r) => MessageView::VersionChecked(
                match r {
                    Ok(t) => Ok(t@),
                    Err(e) => Err(e@),
                },
            ),
            Message::PlayPressed => MessageView::PlayPressed,
            Message::Retry => MessageView::Retry,
            Message::DownloadProgress(p) => MessageView::DownloadProgress(p@),
            Message::Installed(r) => MessageView::Installed(
                match r {
                    Ok(()) => Ok(()),
                    Err(e) => Err(e@),
                },
            ),
            Message::ProcessOutput(u) => MessageView::ProcessOutput(u@),
            Message::LaunchFailed(e) => MessageView::LaunchFailed(e@),
            Message::ChangelogUpdate(c) => MessageView::ChangelogUpdate(
                match c {
                    Some(c) => Some(c@),
                    None => None,
                },
            ),
            Message::NewsUpdate(n) => MessageView::NewsUpdate(
                match n {
                    Some(n) => Some(n@),
                    None => None,
                },
            ),
            Message::Saved(r) => MessageView::Saved(
                match r {
                    Ok(()) => Ok(()),
                    Err(e) => Err(e@),
                },
            ),
        }
    }
}

/// Work the launcher asks its caller to do.
pub enum Command {
    /// Probe `url` for its version token; `known` is the token on record.
    CheckVersion { url: String, known: String },
    /// Refresh the changelog unless its token is still `known`.
    RefreshChangelog { known: String },
    /// Refresh the news unless their token is still `known`.
    RefreshNews { known: String },
    /// Start a download session for `url`.
    Download { url: String },
    /// Install the downloaded build.
    Install,
    /// Launch the executable `binary` in `directory`.
    Launch { binary: String, directory: String },
    /// Write the snapshot.
    Save,
}

pub enum CommandView {
    CheckVersion { url: Seq<char>, known: Seq<char> },
    RefreshChangelog { known: Seq<char> },
    RefreshNews { known: Seq<char> },
    Download { url: Seq<char> },
    Install,
    Launch { binary: Seq<char>, directory: Seq<char> },
    Save,
}

impl View for Command {
    type V = CommandView;

    open spec fn view(&self) -> CommandView {
        match self {
            Command::CheckVersion { url, known } => CommandView::CheckVersion {
                url: url@,
                known: known@,
            },
            Command::RefreshChangelog { known } => CommandView::RefreshChangelog { known: known@ },
            Command::RefreshNews { known } => CommandView::RefreshNews { known: known@ },
            Command::Download { url } => CommandView::Download { url: url@ },
            Command::Install => CommandView::Install,
            Command::Launch { binary, directory } => CommandView::Launch {
                binary: binary@,
                directory: directory@,
            },
            Command::Save => CommandView::Save,
        }
    }
}

/// The launcher: its state, what it persists, and its fixed settings (the
/// operating system's name, the base directory and the download address).
pub struct Launcher {
    pub state: LauncherState,
    pub profiles: Profiles,
    pub changelog: Changelog,
    pub news: News,
    /// The version token announced by the last probe that found an update.
    pub pending_version: String,
    /// Percentage of the running download.
    pub progress: u64,
    pub os: String,
    pub base: String,
    pub download_url: String,
}

pub struct LauncherView {
    pub state: LauncherStateView,
    pub profiles: Seq<ProfileView>,
    pub changelog: ChangelogView,
    pub news: NewsView,
    pub pending_version: Seq<char>,
    pub progress: u64,
    pub os: Seq<char>,
    pub base: Seq<char>,
    pub download_url: Seq<char>,
}

impl View for Launcher {
    type V = LauncherView;

    open spec fn view(&self) -> LauncherView {
        LauncherView {
            state: self.state@,
            profiles: self.profiles@,
            changelog: self.changelog@,
            news: self.news@,
            pending_version: self.pending_version@,
            progress: self.progress,
            os: self.os@,
            base: self.base@,
            download_url: self.download_url@,
        }
    }
}

impl LauncherView {
    /// There is always an active profile.
    pub open spec fn wf(self) -> bool {
        self.profiles.len() > 0
    }
}

/// The states in which the play/update control does something.
pub open spec fn is_idle(s: LauncherStateView) -> bool {
    s matches LauncherStateView::UpdateAvailable || s matches LauncherStateView::ReadyToPlay
}

/// Where the active profile's version is probed.
pub open spec fn probe_uri(l: LauncherView) -> Seq<char> {
    download_server() + "/version/"@ + l.os + "/"@ + channel_name(l.profiles[0].channel)
}

pub open spec fn check_command(l: LauncherView) -> CommandView {
    CommandView::CheckVersion { url: probe_uri(l), known: l.profiles[0].version }
}

/// The commands issued once the snapshot is in place.
pub open spec fn startup_commands(l: LauncherView) -> Seq<CommandView> {
    seq![
        check_command(l),
        CommandView::RefreshChangelog { known: l.changelog.version },
        CommandView::RefreshNews { known: l.news.version },
    ]
}

pub open spec fn launch_command(l: LauncherView) -> CommandView {
    CommandView::Launch {
        binary: join_path(l.profiles[0].directory, voxygen_file(l.os)),
        directory: l.profiles[0].directory,
    }
}

pub open spec fn with_state(l: LauncherView, s: LauncherStateView) -> LauncherView {
    LauncherView { state: s, ..l }
}

pub open spec fn status_text_of(s: LauncherStateView) -> Seq<char> {
    match s {
        LauncherStateView::LoadingSave => "Loading..."@,
        LauncherStateView::QueryingForUpdates => "Checking for updates..."@,
        LauncherStateView::UpdateAvailable => "Update available!"@,
        LauncherStateView::ReadyToPlay => "Ready to play..."@,
        LauncherStateView::Downloading => "Downloading..."@,
        LauncherStateView::Installing => "Installing..."@,
        LauncherStateView::Playing => "Much fun playing!"@,
        LauncherStateView::Error(e) => e,
    }
}

pub open spec fn action_label_of(s: LauncherStateView) -> Seq<char> {
    match s {
        LauncherStateView::LoadingSave => "Loading"@,
        LauncherStateView::QueryingForUpdates => "Loading"@,
        LauncherStateView::UpdateAvailable => "Update"@,
        LauncherStateView::ReadyToPlay => "Play"@,
        LauncherStateView::Downloading => "Downloading"@,
        LauncherStateView::Installing => "Installing"@,
        LauncherStateView::Playing => "Playing"@,
        LauncherStateView::Error(_) => "ERROR"@,
    }
}

impl LauncherState {
    /// The status line shown for this state; an error shows its reason.
    pub fn status_text(&self) -> (r: String)
        ensures
            r@ == status_text_of(self@),
    {
        match self {
            LauncherState::LoadingSave => String::from_str("Loading..."),
            LauncherState::QueryingForUpdates => String::from_str("Checking for updates..."),
            LauncherState::UpdateAvailable => String::from_str("Update available!"),
            LauncherState::ReadyToPlay => String::from_str("Ready to play..."),
            LauncherState::Downloading => String::from_str("Downloading..."),
            LauncherState::Installing => String::from_str("Installing..."),
            LauncherState::Playing => String::from_str("Much fun playing!"),
            LauncherState::Error(e) => e.clone(),
        }
    }

    /// The label of the play/update control in this state.
    pub fn action_label(&self) -> (r: String)
        ensures
            r@ == action_label_of(self@),
    {
        match self {
            LauncherState::LoadingSave => String::from_str("Loading"),
            LauncherState::QueryingForUpdates => String::from_str("Loading"),
            LauncherState::UpdateAvailable => String::from_str("Update"),
            LauncherState::ReadyToPlay => String::from_str("Play"),
            LauncherState::Downloading => String::from_str("Downloading"),
            LauncherState::Installing => String::from_str("Installing"),
            LauncherState::Playing => String::from_str("Playing"),
            LauncherState::Error(_) => String::from_str("ERROR"),
        }
    }

    /// Whether the play/update control does anything in this state.
    pub fn action_enabled(&self) -> (r: bool)
        ensures
            r == is_idle(self@),
    {
        matches!(self, LauncherState::UpdateAvailable | LauncherState::ReadyToPlay)
    }
}

/// One transition of the launcher: its next value and the commands it issues.
pub open spec fn transition(l: LauncherView, m: MessageView) -> (LauncherView, Seq<CommandView>) {
    let none = Seq::<CommandView>::empty();
    match m {
        MessageView::Loaded(snap) => if (l.state matches LauncherStateView::LoadingSave) {
            let n = match snap {
                Some(s) => if s.profiles.len() > 0 {
                    LauncherView {
                        state: LauncherStateView::QueryingForUpdates,
                        profiles: s.profiles,
                        changelog: s.changelog,
                        news: s.news,
                        ..l
                    }
                } else {
                    with_state(l, LauncherStateView::QueryingForUpdates)
                },
                None => with_state(l, LauncherStateView::QueryingForUpdates),
            };
            (n, startup_commands(n))
        } else {
            (l, none)
        },
        MessageView::VersionChecked(res) => if (l.state matches LauncherStateView::QueryingForUpdates) {
            match res {
                Ok(probed) => if l.profiles[0].version != probed {
                    (
                        LauncherView {
                            state: LauncherStateView::UpdateAvailable,
                            pending_version: probed,
                            ..l
                        },
                        none,
                    )
                } else {
                    (with_state(l, LauncherStateView::ReadyToPlay), none)
                },
                Err(e) => (with_state(l, LauncherStateView::Error(e)), none),
            }
        } else {
            (l, none)
        },
        MessageView::PlayPressed => match l.state {
            LauncherStateView::UpdateAvailable => (
                LauncherView { state: LauncherStateView::Downloading, progress: 0, ..l },
                seq![CommandView::Download { url: l.download_url }],
            ),
            LauncherStateView::ReadyToPlay => (
                with_state(l, LauncherStateView::Playing),
                seq![launch_command(l)],
            ),
            _ => (l, none),
        },
        MessageView::Retry => if (l.state matches LauncherStateView::Error(_)) {
            (with_state(l, LauncherStateView::QueryingForUpdates), seq![check_command(l)])
        } else {
            (l, none)
        },
        MessageView::DownloadProgress(p) => if (l.state matches LauncherStateView::Downloading) {
            match p {
                ProgressView::Started => (LauncherView { progress: 0, ..l }, none),
                ProgressView::Advanced(_, q) => (LauncherView { progress: q, ..l }, none),
                ProgressView::Finished => (
                    with_state(l, LauncherStateView::Installing),
                    seq![CommandView::Install],
                ),
                ProgressView::Errored(e) => (with_state(l, LauncherStateView::Error(e)), none),
            }
        } else {
            (l, none)
        },
        MessageView::Installed(res) => if (l.state matches LauncherStateView::Installing) {
            match res {
                Ok(()) => (
                    LauncherView {
                        state: LauncherStateView::ReadyToPlay,
                        profiles: l.profiles.update(
                            0,
                            ProfileView { version: l.pending_version, ..l.profiles[0] },
                        ),
                        ..l
                    },
                    seq![CommandView::Save],
                ),
                Err(e) => (with_state(l, LauncherStateView::Error(e)), none),
            }
        } else {
            (l, none)
        },
        MessageView::ProcessOutput(u) => if (l.state matches LauncherStateView::Playing) {
            match u {
                ProcessUpdateView::Line(_) => (l, none),
                ProcessUpdateView::Exit(_) => (
                    with_state(l, LauncherStateView::QueryingForUpdates),
                    seq![check_command(l)],
                ),
            }
        } else {
            (l, none)
        },
        MessageView::LaunchFailed(e) => if (l.state matches LauncherStateView::Playing) {
            (with_state(l, LauncherStateView::Error(e)), none)
        } else {
            (l, none)
        },
        MessageView::ChangelogUpdate(c) => match c {
            Some(c) => (LauncherView { changelog: c, ..l }, seq![CommandView::Save]),
            None => (l, none),
        },
        MessageView::NewsUpdate(n) => match n {
            Some(n) => (LauncherView { news: n, ..l }, seq![CommandView::Save]),
            None => (l, none),
        },
        MessageView::Saved(res) => match res {
            Ok(()) => (l, none),
            Err(e) => (with_state(l, LauncherStateView::Error(e)), none),
        },
    }
}

pub open spec fn commands_view(cs: Seq<Command>) -> Seq<CommandView> {
    cs.map_values(|c: Command| c@)
}

impl Launcher {
    /// A launcher that is loading its snapshot, holding the defaults meanwhile.
    pub fn new(os: String, base: String, download_url: String) -> (r: Launcher)
        ensures
            r@ == (LauncherView {
                state: LauncherStateView::LoadingSave,
                profiles: seq![default_profile(base@)],
                changelog: ChangelogView { text: Seq::empty(), version: Seq::empty() },
                news: NewsView { posts: Seq::empty(), version: Seq::empty() },
                pending_version: Seq::empty(),
                progress: 0,
                os: os@,
                base: base@,
                download_url: download_url@,
            }),
            r@.wf(),
    {
        let profiles = Profiles::default_in(base.as_str());
        Launcher {
            state: LauncherState::LoadingSave,
            profiles,
            changelog: Changelog::empty(),
            news: News::empty(),
            pending_version: String::new(),
            progress: 0,
            os,
            base,
            download_url,
        }
    }

    fn check_command(&self) -> (r: Command)
        requires
            self@.wf(),
        ensures
            r@ == check_command(self@),
    {
        let p = self.profiles.latest();
        Command::CheckVersion { url: p.version_uri(self.os.as_str()), known: p.version.clone() }
    }

    /// Takes one message and returns the commands to carry out, in order.
    pub fn update(&mut self, m: Message) -> (r: Vec<Command>)
        requires
            old(self)@.wf(),
        ensures
            (final(self)@, commands_view(r@)) == transition(old(self)@, m@),
            final(self)@.wf(),
    {
        let ghost l = self@;
        let mut r: Vec<Command> = Vec::new();
        match m {
            Message::Loaded(snap) => {
                if let LauncherState::LoadingSave = self.state {
                    match snap {
                        Some(s) => {
                            if !s.profiles.is_empty() {
                                self.profiles = s.profiles;
                                self.changelog = s.changelog;
                                self.news = s.news;
                            }
                        },
                        None => {},
                    }
                    self.state = LauncherState::QueryingForUpdates;
                    r.push(self.check_command());
                    r.push(Command::RefreshChangelog { known: self.changelog.version.clone() });
                    r.push(Command::RefreshNews { known: self.news.version.clone() });
                }
            },
            Message::VersionChecked(res) => {
                if let LauncherState::QueryingForUpdates = self.state {
                    match res {
                        Ok(probed) => {
                            if update_available(
                                self.profiles.latest().version.as_str(),
                                probed.as_str(),
                            ) {
                                self.state = LauncherState::UpdateAvailable;
                                self.pending_version = probed;
                            } else {
                                self.state = LauncherState::ReadyToPlay;
                            }
                        },
                        Err(e) => {
                            self.state = LauncherState::Error(e);
                        },
                    }
                }
            },
            Message::PlayPressed => {
                match self.state {
                    LauncherState::UpdateAvailable => {
                        self.state = LauncherState::Downloading;
                        self.progress = 0;
                        r.push(Command::Download { url: self.download_url.clone() });
                    },
                    LauncherState::ReadyToPlay => {
                        self.state = LauncherState::Playing;
                        let p = self.profiles.latest();
                        r.push(
                            Command::Launch {
                                binary: p.voxygen_path(self.os.as_str()),
                                directory: p.directory.clone(),
                            },
                        );
                    },
                    _ => {},
                }
            },
            Message::Retry => {
                if let LauncherState::Error(_) = self.state {
                    self.state = LauncherState::QueryingForUpdates;
                    r.push(self.check_command());
                }
            },
            Message::DownloadProgress(p) => {
                if let LauncherState::Downloading = self.state {
                    match p {
                        Progress::Started => {
                            self.progress = 0;
                        },
                        Progress::Advanced(_, q) => {
                            self.progress = q;
                        },
                        Progress::Finished => {
                            self.state = LauncherState::Installing;
                            r.push(Command::Install);
                        },
                        Progress::Errored(e) => {
                            self.state = LauncherState::Error(e);
                        },
                    }
                }
            },
            Message::Installed(res) => {
                if let LauncherState::Installing = self.state {
                    match res {
                        Ok(()) => {
                            self.state = LauncherState::ReadyToPlay;
                            let v = self.pending_version.clone();
                            self.profiles.set_latest_version(v);
                            r.push(Command::Save);
                        },
                        Err(e) => {
                            self.state = LauncherState::Error(e);
                        },
                    }
                }
            },
            Message::ProcessOutput(u) => {
                if let LauncherState::Playing = self.state {
                    match u {
                        ProcessUpdate::Line(_) => {},
                        ProcessUpdate::Exit(_) => {
                            self.state = LauncherState::QueryingForUpdates;
                            r.push(self.check_command());
                        },
                    }
                }
            },
            Message::LaunchFailed(e) => {
                if let LauncherState::Playing = self.state {
                    self.state = LauncherState::Error(e);
                }
            },
            Message::ChangelogUpdate(c) => {
                if let Some(c) = c {
                    self.changelog = c;
                    r.push(Command::Save);
                }
            },
            Message::NewsUpdate(n) => {
                if let Some(n) = n {
                    self.news = n;
                    r.push(Command::Save);
                }
            },
            Message::Saved(res) => {
                if let Err(e) = res {
                    self.state = LauncherState::Error(e);
                }
            },
        }
        assert(commands_view(r@) =~= transition(l, m@).1);
        r
    }
}

/// The play/update control does nothing outside the idle states, in particular
/// while a download, an installation or the game is running: the launcher stays
/// as it is and issues no command, so no second download or launch can start.
pub proof fn lemma_play_ignored_unless_idle(l: LauncherView)
    requires
        !is_idle(l.state),
    ensures
        transition(l, MessageView::PlayPressed) == (l, Seq::<CommandView>::empty()),
{
}

/// A download or a launch is only ever issued by pressing the control in an idle state.
pub proof fn lemma_sessions_start_only_when_idle(l: LauncherView, m: MessageView, i: int)
    requires
        0 <= i < transition(l, m).1.len(),
        transition(l, m).1[i] matches CommandView::Download { .. } || transition(l, m).1[i] matches CommandView::Launch { .. },
    ensures
        m matches MessageView::PlayPressed,
        is_idle(l.state),
{
}

} // verus!
