//! What is fetched from where, and where it goes in the work directory.
//!
//! All paths are relative to the work directory and use `/` between their
//! parts.

use vstd::prelude::*;

verus! {

/// The directory of the dependency tree. Its presence means that the
/// dependencies are installed.
pub const DEPENDENCY_TREE: &'static str = "BepInEx";

/// The directory of the content tree, inside the dependency tree.
pub const CONTENT_TREE: &'static str = "BepInEx/BepInEx/plugins/SlopCrew";

/// The directory that holds the generated configuration files.
pub const CONFIG_DIR: &'static str = "BepInEx/BepInEx/config";

/// The file that holds the local version marker.
pub const MARKER_FILE: &'static str = "update.txt";

/// Where the remote version marker is published.
pub const REMOTE_MARKER_URL: &'static str = "https://sloppers.club/dev/update.txt";

/// The entry point of the content tree, which a launcher is pointed at.
pub const ENTRY_POINT: &'static str = "BepInEx/BepInEx/core/BepInEx.Preloader.dll";

/// One of the two bundles that make up an installation.
#[derive(Clone, Copy, Debug, PartialEq, Eq, Structural)]
pub enum Bundle {
    /// The bundle that is installed first and rarely changes.
    Dependency,
    /// The bundle whose version is checked on every run.
    Content,
}

/// One download: where the archive comes from and where it is put.
#[derive(Clone, Copy, Debug)]
pub struct UpdateJob {
    pub source_url: &'static str,
    pub destination_path: &'static str,
}

impl Bundle {
    /// The address of the bundle's archive.
    pub open spec fn source_url(self) -> Seq<char> {
        match self {
            Bundle::Dependency =>
                "https://github.com/BepInEx/BepInEx/releases/download/v5.4.22/BepInEx_x64_5.4.22.0.zip"@,
            Bundle::Content => "https://sloppers.club/dev/SlopCrew.zip"@,
        }
    }

    /// The temporary file that the bundle's archive is downloaded to.
    pub open spec fn archive_path(self) -> Seq<char> {
        match self {
            Bundle::Dependency => "BepInEx.zip"@,
            Bundle::Content => "SlopCrew.zip"@,
        }
    }

    /// The directory that the bundle is extracted into.
    pub open spec fn tree_path(self) -> Seq<char> {
        match self {
            Bundle::Dependency => DEPENDENCY_TREE@,
            Bundle::Content => CONTENT_TREE@,
        }
    }

    /// The download that fetches the bundle's archive.
    pub fn job(self) -> (job: UpdateJob)
        ensures
            job.source_url@ == self.source_url(),
            job.destination_path@ == self.archive_path(),
    {
        match self {
            Bundle::Dependency => UpdateJob {
                source_url: "https://github.com/BepInEx/BepInEx/releases/download/v5.4.22/BepInEx_x64_5.4.22.0.zip",
                destination_path: "BepInEx.zip",
            },
            Bundle::Content => UpdateJob {
                source_url: "https://sloppers.club/dev/SlopCrew.zip",
                destination_path: "SlopCrew.zip",
            },
        }
    }

    /// The directory that the bundle is extracted into.
    pub fn tree(self) -> (path: &'static str)
        ensures
            path@ == self.tree_path(),
    {
        match self {
            Bundle::Dependency => DEPENDENCY_TREE,
            Bundle::Content => CONTENT_TREE,
        }
    }
}

/// One of the configuration files that bootstrapping generates. Each holds
/// `[Section]` headers followed by `Key = Value` lines.
#[derive(Clone, Copy, Debug, PartialEq, Eq, Structural)]
pub enum ConfigFile {
    /// The settings of the content plugin: the server it connects to.
    Plugin,
    /// The settings of the loader: its console.
    Loader,
}

impl ConfigFile {
    /// Where the file is written.
    pub open spec fn path_text(self) -> Seq<char> {
        match self {
            ConfigFile::Plugin => "BepInEx/BepInEx/config/SlopCrew.Plugin.cfg"@,
            ConfigFile::Loader => "BepInEx/BepInEx/config/BepInEx.cfg"@,
        }
    }

    /// What is written to the file, verbatim.
    pub open spec fn contents_text(self) -> Seq<char> {
        match self {
            ConfigFile::Plugin => "[Server]\nHost = lmaobox.n2.pm\nPort = 42069\n"@,
            ConfigFile::Loader => "[Logging.Console]\nEnabled = true\n"@,
        }
    }

    /// Where the file is written.
    pub fn path(self) -> (path: &'static str)
        ensures
            path@ == self.path_text(),
    {
        match self {
            ConfigFile::Plugin => "BepInEx/BepInEx/config/SlopCrew.Plugin.cfg",
            ConfigFile::Loader => "BepInEx/BepInEx/config/BepInEx.cfg",
        }
    }

    /// What is written to the file, verbatim.
    pub fn contents(self) -> (text: &'static str)
        ensures
            text@ == self.contents_text(),
    {
        match self {
            ConfigFile::Plugin => "[Server]\nHost = lmaobox.n2.pm\nPort = 42069\n",
            ConfigFile::Loader => "[Logging.Console]\nEnabled = true\n",
        }
    }
}

} // verus!
