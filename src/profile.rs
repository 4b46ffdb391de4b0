//! Installable game builds: their names, channels, directories and version tokens.
//!
//! Paths are plain strings joined with `/`; creating directories is left to the
//! caller, which hands in the base directory it located.
use vstd::prelude::*;
use crate::text::{same_text, joined};

verus! {

pub open spec fn download_server() -> Seq<char> {
    "https://download.veloren.net"@
}

pub open spec fn log_file() -> Seq<char> {
    "airshipper.log"@
}

/// The name of the game's executable on the given operating system.
pub open spec fn voxygen_file(os: Seq<char>) -> Seq<char> {
    if os == "windows"@ {
        "veloren-voxygen.exe"@
    } else {
        "veloren-voxygen"@
    }
}

/// Joins a directory and an entry of it.
pub open spec fn join_path(dir: Seq<char>, entry: Seq<char>) -> Seq<char> {
    dir + "/"@ + entry
}

/// A release track of the game.
#[derive(Clone, Copy, PartialEq, Eq, Structural, Debug)]
pub enum Channel {
    Nightly,
}

pub open spec fn channel_name(c: Channel) -> Seq<char> {
    match c {
        Channel::Nightly => "nightly"@,
    }
}

impl Channel {
    /// The channel's name as the download server spells it.
    pub fn name(&self) -> (r: String)
        ensures
            r@ == channel_name(*self),
    {
        match self {
            Channel::Nightly => String::from_str("nightly"),
        }
    }
}

/// Returns the path of an asset inside the assets directory.
pub fn get_assets_path(assets: &str, name: &str) -> (r: String)
    ensures
        r@ == join_path(assets@, name@),
{
    joined(assets, "/", name)
}

/// Returns the directory of the named profile under the launcher's base directory.
pub fn get_profile_path(base: &str, profile_name: &str) -> (r: String)
    ensures
        r@ == join_path(join_path(base@, "profiles"@), profile_name@),
{
    let profiles = joined(base, "/", "profiles");
    joined(profiles.as_str(), "/", profile_name)
}

/// Returns the path of the log file under the launcher's base directory.
pub fn get_log_path(base: &str) -> (r: String)
    ensures
        r@ == join_path(base@, log_file()),
{
    joined(base, "/", "airshipper.log")
}

/// One installable build: name, channel, directory and version token.
pub struct Profile {
    pub name: String,
    pub channel: Channel,
    pub directory: String,
    pub version: String,
}

pub struct ProfileView {
    pub name: Seq<char>,
    pub channel: Channel,
    pub directory: Seq<char>,
    pub version: Seq<char>,
}

impl View for Profile {
    type V = ProfileView;

    open spec fn view(&self) -> ProfileView {
        ProfileView {
            name: self.name@,
            channel: self.channel,
            directory: self.directory@,
            version: self.version@,
        }
    }
}

/// The profile made on first run under the base directory `base`.
pub open spec fn default_profile(base: Seq<char>) -> ProfileView {
    ProfileView {
        name: "default"@,
        channel: Channel::Nightly,
        directory: join_path(join_path(base, "profiles"@), "default"@),
        version: "default"@,
    }
}

impl Clone for Profile {
    fn clone(&self) -> (r: Profile)
        ensures
            r@ == self@,
    {
        Profile {
            name: self.name.clone(),
            channel: self.channel,
            directory: self.directory.clone(),
            version: self.version.clone(),
        }
    }
}

impl Profile {
    /// A profile whose directory is the one `get_profile_path` names for it.
    pub fn new(base: &str, name: &str, channel: Channel, version: &str) -> (r: Profile)
        ensures
            r@ == (ProfileView {
                name: name@,
                channel,
                directory: join_path(join_path(base@, "profiles"@), name@),
                version: version@,
            }),
    {
        Profile {
            directory: get_profile_path(base, name),
            name: String::from_str(name),
            channel,
            version: String::from_str(version),
        }
    }

    /// The profile made on first run.
    pub fn default_in(base: &str) -> (r: Profile)
        ensures
            r@ == default_profile(base@),
    {
        Profile::new(base, "default", Channel::Nightly, "default")
    }

    /// Path of the game's executable inside the profile's directory.
    pub fn voxygen_path(&self, os: &str) -> (r: String)
        ensures
            r@ == join_path(self.directory@, voxygen_file(os@)),
    {
        if same_text(os, "windows") {
            joined(self.directory.as_str(), "/", "veloren-voxygen.exe")
        } else {
            joined(self.directory.as_str(), "/", "veloren-voxygen")
        }
    }

    /// Target of the version probe: `{server}/version/{os}/{channel}`.
    pub fn version_uri(&self, os: &str) -> (r: String)
        ensures
            r@ == download_server() + "/version/"@ + os@ + "/"@ + channel_name(self.channel),
    {
        let channel = self.channel.name();
        String::from_str("https://download.veloren.net").concat("/version/").concat(os).concat(
            "/",
        ).concat(channel.as_str())
    }
}

/// The installed profiles, the latest one first; never empty.
pub struct Profiles {
    list: Vec<Profile>,
}

impl View for Profiles {
    type V = Seq<ProfileView>;

    closed spec fn view(&self) -> Seq<ProfileView> {
        self.list@.map_values(|p: Profile| p@)
    }
}

impl Profiles {
    pub open spec fn wf(&self) -> bool {
        self@.len() > 0
    }

    /// The collection made on first run: the default profile alone.
    pub fn default_in(base: &str) -> (r: Profiles)
        ensures
            r.wf(),
            r@ == seq![default_profile(base@)],
    {
        let mut list: Vec<Profile> = Vec::new();
        let p = Profile::default_in(base);
        list.push(p);
        let r = Profiles { list };
        assert(r@ =~= seq![r.list@[0]@]);
        r
    }

    /// A collection of the given profiles; `None` where there are none.
    pub fn from_vec(list: Vec<Profile>) -> (r: Option<Profiles>)
        ensures
            match r {
                Some(p) => list@.len() > 0 && p.wf() && p@ == list@.map_values(|q: Profile| q@),
                None => list@.len() == 0,
            },
    {
        if list.len() == 0 {
            None
        } else {
            Some(Profiles { list })
        }
    }

    /// Whether the collection holds no profile.
    pub fn is_empty(&self) -> (r: bool)
        ensures
            r == (self@.len() == 0),
    {
        self.list.len() == 0
    }

    /// The profiles, the latest first.
    pub fn to_vec(&self) -> (r: Vec<Profile>)
        ensures
            r@.map_values(|q: Profile| q@) == self@,
    {
        let mut r: Vec<Profile> = Vec::new();
        let mut i: usize = 0;
        while i < self.list.len()
            invariant
                i <= self.list@.len(),
                r@.len() == i,
                forall|j: int| 0 <= j < i ==> r@[j]@ == self.list@[j]@,
            decreases self.list@.len() - i,
        {
            r.push(self.list[i].clone());
            i += 1;
        }
        assert(r@.map_values(|q: Profile| q@) =~= self@);
        r
    }

    /// The active profile.
    pub fn latest(&self) -> (r: &Profile)
        requires
            self.wf(),
        ensures
            r@ == self@[0],
    {
        &self.list[0]
    }

    /// Records the version token of a newly installed build on the active profile.
    pub fn set_latest_version(&mut self, version: String)
        requires
            old(self).wf(),
        ensures
            final(self).wf(),
            final(self)@ == old(self)@.update(
                0,
                ProfileView { version: version@, ..old(self)@[0] },
            ),
    {
        let mut first = self.list[0].clone();
        first.version = version;
        self.list.set(0, first);
        assert(self@ =~= old(self)@.update(0, ProfileView { version: version@, ..old(self)@[0] }));
    }
}

/// Taking the profiles out of a collection and putting them back gives the same collection.
pub proof fn lemma_profiles_round_trip(p: Profiles, list: Vec<Profile>, back: Option<Profiles>)
    requires
        p.wf(),
        list@.map_values(|q: Profile| q@) == p@,
        match back {
            Some(b) => list@.len() > 0 && b@ == list@.map_values(|q: Profile| q@),
            None => list@.len() == 0,
        },
    ensures
        back matches Some(b) && b@ == p@,
{
}

} // verus!
