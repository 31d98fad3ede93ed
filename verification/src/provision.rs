//! The provisioning flow for the language-server binary, as an explicit
//! state machine.
//!
//! Each invocation of the host asks the machine for the next action to
//! perform (fetch the latest release, open, create, read or write the
//! version marker file, download an archive, mark the binary
//! executable) and feeds the outcome back as an event.  Every decision
//! — whether the stored marker is stale, which asset to download, which
//! path to return, which failures are fatal — is made here, in verified
//! code; the host shell only performs the I/O.

use vstd::prelude::*;

use crate::platform::{
    select_asset, server_binary_path, spec_archive_kind, spec_asset_index, spec_binary_path,
    supported, Arch, ArchiveKind, Os,
};

verus! {

/// Metadata of the latest published language-server release: its
/// version identifier and the download URLs of its assets, in the order
/// the release service lists them.
#[derive(Clone, Debug, PartialEq, Eq)]
pub struct ReleaseInfo {
    pub version: String,
    pub asset_urls: Vec<String>,
}

/// What the host runtime needs to spawn the language server: the
/// executable path, an argument list and an environment mapping (both
/// always empty for this server).
#[derive(Clone, Debug, PartialEq, Eq)]
pub struct CommandDescriptor {
    pub command: String,
    pub args: Vec<String>,
    pub env: Vec<(String, String)>,
}

/// An I/O step the host shell must perform on the machine's behalf.
#[derive(Clone, Debug, PartialEq, Eq)]
pub enum Action {
    /// Query the release service for the latest non-prerelease release
    /// of the given repository.
    FetchRelease { repository: String, pre_release: bool, require_assets: bool },
    /// Open the version marker file for reading.
    OpenMarker { file: String },
    /// Create the version marker file, empty.
    CreateMarker { file: String },
    /// Read the whole contents of the opened marker file.
    ReadMarker { file: String },
    /// Overwrite the marker file with the given contents.
    WriteMarker { file: String, contents: String },
    /// Download the archive at `url` and extract it into `directory`.
    Download { url: String, directory: String, archive: ArchiveKind },
    /// Mark the file at `path` executable.
    MakeExecutable { path: String },
}

/// The outcome of a performed [`Action`], reported back to the machine.
#[derive(Clone, Debug, PartialEq, Eq)]
pub enum Event {
    /// The release service answered with the latest release.
    ReleaseFetched { release: ReleaseInfo },
    /// The release could not be fetched (network error, not found).
    ReleaseUnavailable,
    /// The marker file exists and was opened.
    MarkerOpened,
    /// The marker file does not exist.
    MarkerMissing,
    /// Opening the marker file failed for another reason.
    MarkerOpenFailed,
    /// The empty marker file was created.
    MarkerCreated,
    /// The marker file was read; `content` is what it holds.
    MarkerRead { content: String },
    /// Reading the opened marker file failed.
    MarkerReadFailed,
    /// The marker file was overwritten.
    MarkerWritten,
    /// Overwriting the marker file failed.
    MarkerWriteFailed,
    /// The download and extraction finished, successfully or not.
    DownloadFinished { success: bool },
    /// The binary was marked executable.
    ExecutableMarked,
    /// Marking the binary executable failed with the host's error.
    ExecutableMarkFailed { error: String },
}

/// Where the machine stands between two actions.
#[derive(Clone, Debug, PartialEq, Eq)]
pub enum State {
    /// Waiting for the latest release metadata.
    FetchingRelease,
    /// Waiting for the marker file to be opened.
    OpeningMarker { version: String, asset_urls: Vec<String> },
    /// Waiting for the missing marker file to be created empty.
    CreatingMarker { version: String, asset_urls: Vec<String> },
    /// Waiting for the marker file's contents.
    ReadingMarker { version: String, asset_urls: Vec<String> },
    /// Waiting for the marker file to be overwritten with the fetched
    /// version.
    WritingMarker { asset_urls: Vec<String> },
    /// Waiting for the platform's archive to be downloaded.
    Downloading,
    /// Waiting for the resolved binary path to be marked executable.
    MarkingExecutable { path: String },
    /// The flow succeeded; the command descriptor is ready.
    Finished { command: CommandDescriptor },
    /// The flow failed with an error message for the host.
    Failed { error: String },
}

/// One provisioning run: the platform it runs on and its current state.
#[derive(Clone, Debug, PartialEq, Eq)]
pub struct Provisioner {
    pub os: Os,
    pub arch: Arch,
    pub state: State,
}

/// The machine resolves the platform's binary path and asks for it to
/// be marked executable.
pub open spec fn resolves_binary(os: Os, arch: Arch, state: State, action: Option<Action>) -> bool {
    &&& state matches State::MarkingExecutable { path } && path@ == spec_binary_path(os, arch)
    &&& action matches Some(Action::MakeExecutable { path }) && path@ == spec_binary_path(os, arch)
}

/// The update decision once the stored marker content is known: a
/// stored content equal to the fetched version means up to date, and
/// the machine goes straight on to resolving the binary path; anything
/// else is stale, and the machine first asks for the marker file to be
/// overwritten with the fetched version.
pub open spec fn compared(
    pre: Provisioner,
    version: String,
    asset_urls: Vec<String>,
    stored: Seq<char>,
    post: Provisioner,
    action: Option<Action>,
) -> bool {
    if stored == version@ {
        resolves_binary(pre.os, pre.arch, post.state, action)
    } else {
        &&& post.state matches State::WritingMarker { asset_urls: a } && a == asset_urls
        &&& action matches Some(Action::WriteMarker { file, contents }) && file@ == "lsp_ver"@
            && contents == version
    }
}

/// The one precondition of [`Provisioner::step`]: when a successful
/// marker write is reported on a supported platform, the release must
/// list enough assets for the platform's asset index.
pub open spec fn step_allowed(m: Provisioner, event: Event) -> bool {
    match (m.state, event) {
        (State::WritingMarker { asset_urls }, Event::MarkerWritten) => supported(m.os, m.arch)
            ==> spec_asset_index(m.os, m.arch) < asset_urls@.len(),
        _ => true,
    }
}

/// Full transition relation of the machine: for the state the step
/// started from and the event it was fed, exactly what the new state
/// and the emitted action are.  Any event that does not belong to the
/// current state leaves the machine unchanged and emits nothing.
pub open spec fn step_post(
    pre: Provisioner,
    event: Event,
    post: Provisioner,
    action: Option<Action>,
) -> bool {
    &&& post.os == pre.os
    &&& post.arch == pre.arch
    &&& match (pre.state, event) {
        (State::FetchingRelease, Event::ReleaseFetched { release }) => {
            &&& post.state matches State::OpeningMarker { version, asset_urls }
                && version == release.version && asset_urls == release.asset_urls
            &&& action matches Some(Action::OpenMarker { file }) && file@ == "lsp_ver"@
        },
        (State::FetchingRelease, Event::ReleaseUnavailable) => resolves_binary(
            pre.os,
            pre.arch,
            post.state,
            action,
        ),
        (State::OpeningMarker { version, asset_urls }, Event::MarkerOpened) => {
            &&& post.state matches State::ReadingMarker { version: v, asset_urls: a }
                && v == version && a == asset_urls
            &&& action matches Some(Action::ReadMarker { file }) && file@ == "lsp_ver"@
        },
        (State::OpeningMarker { version, asset_urls }, Event::MarkerMissing) => {
            &&& post.state matches State::CreatingMarker { version: v, asset_urls: a }
                && v == version && a == asset_urls
            &&& action matches Some(Action::CreateMarker { file }) && file@ == "lsp_ver"@
        },
        (State::OpeningMarker { .. }, Event::MarkerOpenFailed) => {
            &&& post.state matches State::Failed { error } && error@ == "Failed load file"@
            &&& action is None
        },
        (State::CreatingMarker { version, asset_urls }, Event::MarkerCreated) => compared(
            pre,
            version,
            asset_urls,
            Seq::<char>::empty(),
            post,
            action,
        ),
        (State::ReadingMarker { version, asset_urls }, Event::MarkerRead { content }) => compared(
            pre,
            version,
            asset_urls,
            content@,
            post,
            action,
        ),
        (State::ReadingMarker { version, asset_urls }, Event::MarkerReadFailed) => compared(
            pre,
            version,
            asset_urls,
            Seq::<char>::empty(),
            post,
            action,
        ),
        (State::WritingMarker { asset_urls }, Event::MarkerWritten) => {
            if supported(pre.os, pre.arch) {
                &&& post.state is Downloading
                &&& action matches Some(Action::Download { url, directory, archive })
                    && url == asset_urls@[spec_asset_index(pre.os, pre.arch)]
                    && directory@ == "c3lsp/"@
                    && archive == spec_archive_kind(pre.os, pre.arch)
            } else {
                resolves_binary(pre.os, pre.arch, post.state, action)
            }
        },
        (State::WritingMarker { .. }, Event::MarkerWriteFailed) => {
            &&& post.state matches State::Failed { error } && error@ == "Failed to write file"@
            &&& action is None
        },
        (State::Downloading, Event::DownloadFinished { .. }) => resolves_binary(
            pre.os,
            pre.arch,
            post.state,
            action,
        ),
        (State::MarkingExecutable { path }, Event::ExecutableMarked) => {
            &&& post.state matches State::Finished { command } && command.command == path
                && command.args@.len() == 0 && command.env@.len() == 0
            &&& action is None
        },
        (State::MarkingExecutable { .. }, Event::ExecutableMarkFailed { error: e }) => {
            &&& post.state matches State::Failed { error } && error == e
            &&& action is None
        },
        _ => post == pre && action is None,
    }
}

impl Provisioner {
    /// Begins a provisioning run for the given platform.  The first
    /// action asks for the latest non-prerelease release of the fixed
    /// upstream repository, with assets optional.
    pub fn start(os: Os, arch: Arch) -> (r: (Provisioner, Action))
        ensures
            r.0.os == os,
            r.0.arch == arch,
            r.0.state is FetchingRelease,
            r.1 matches Action::FetchRelease { repository, pre_release, require_assets }
                && repository@ == "pherrymason/c3-lsp"@ && !pre_release && !require_assets,
    {
        (
            Provisioner { os, arch, state: State::FetchingRelease },
            Action::FetchRelease {
                repository: String::from_str("pherrymason/c3-lsp"),
                pre_release: false,
                require_assets: false,
            },
        )
    }

    /// Feeds one event into the machine and returns the machine in its
    /// next state together with the next action, if any.  The whole
    /// behaviour is pinned by [`step_post`].
    pub fn step(self, event: Event) -> (r: (Provisioner, Option<Action>))
        requires
            step_allowed(self, event),
        ensures
            step_post(self, event, r.0, r.1),
    {
        let Provisioner { os, arch, state } = self;
        match (state, event) {
            (State::FetchingRelease, Event::ReleaseFetched { release }) => {
                let ReleaseInfo { version, asset_urls } = release;
                (
                    Provisioner { os, arch, state: State::OpeningMarker { version, asset_urls } },
                    Some(Action::OpenMarker { file: String::from_str("lsp_ver") }),
                )
            },
            (State::FetchingRelease, Event::ReleaseUnavailable) => resolve_binary(os, arch),
            (State::OpeningMarker { version, asset_urls }, Event::MarkerOpened) => (
                Provisioner { os, arch, state: State::ReadingMarker { version, asset_urls } },
                Some(Action::ReadMarker { file: String::from_str("lsp_ver") }),
            ),
            (State::OpeningMarker { version, asset_urls }, Event::MarkerMissing) => (
                Provisioner { os, arch, state: State::CreatingMarker { version, asset_urls } },
                Some(Action::CreateMarker { file: String::from_str("lsp_ver") }),
            ),
            (State::OpeningMarker { .. }, Event::MarkerOpenFailed) => (
                Provisioner {
                    os,
                    arch,
                    state: State::Failed { error: String::from_str("Failed load file") },
                },
                None,
            ),
            (State::CreatingMarker { version, asset_urls }, Event::MarkerCreated) => {
                if version == String::new() {
                    resolve_binary(os, arch)
                } else {
                    begin_update(os, arch, version, asset_urls)
                }
            },
            (State::ReadingMarker { version, asset_urls }, Event::MarkerRead { content }) => {
                if content == version {
                    resolve_binary(os, arch)
                } else {
                    begin_update(os, arch, version, asset_urls)
                }
            },
            (State::ReadingMarker { version, asset_urls }, Event::MarkerReadFailed) => {
                if version == String::new() {
                    resolve_binary(os, arch)
                } else {
                    begin_update(os, arch, version, asset_urls)
                }
            },
            (State::WritingMarker { asset_urls }, Event::MarkerWritten) => {
                match select_asset(os, arch) {
                    Some((index, archive)) => (
                        Provisioner { os, arch, state: State::Downloading },
                        Some(
                            Action::Download {
                                url: asset_urls[index].clone(),
                                directory: String::from_str("c3lsp/"),
                                archive,
                            },
                        ),
                    ),
                    None => resolve_binary(os, arch),
                }
            },
            (State::WritingMarker { .. }, Event::MarkerWriteFailed) => (
                Provisioner {
                    os,
                    arch,
                    state: State::Failed { error: String::from_str("Failed to write file") },
                },
                None,
            ),
            (State::Downloading, Event::DownloadFinished { .. }) => resolve_binary(os, arch),
            (State::MarkingExecutable { path }, Event::ExecutableMarked) => (
                Provisioner {
                    os,
                    arch,
                    state: State::Finished {
                        command: CommandDescriptor {
                            command: path,
                            args: Vec::new(),
                            env: Vec::new(),
                        },
                    },
                },
                None,
            ),
            (State::MarkingExecutable { .. }, Event::ExecutableMarkFailed { error }) => (
                Provisioner { os, arch, state: State::Failed { error } },
                None,
            ),
            (s, _) => (Provisioner { os, arch, state: s }, None),
        }
    }
}

/// Resolves the platform's binary path and asks for it to be marked
/// executable: the tail of every run that reaches it.
fn resolve_binary(os: Os, arch: Arch) -> (r: (Provisioner, Option<Action>))
    ensures
        r.0.os == os,
        r.0.arch == arch,
        resolves_binary(os, arch, r.0.state, r.1),
{
    let path = String::from_str(server_binary_path(os, arch));
    (
        Provisioner { os, arch, state: State::MarkingExecutable { path: path.clone() } },
        Some(Action::MakeExecutable { path }),
    )
}

/// A stale marker was detected: asks for the marker file to be
/// overwritten with the fetched version before any download.
fn begin_update(os: Os, arch: Arch, version: String, asset_urls: Vec<String>) -> (r: (
    Provisioner,
    Option<Action>,
))
    ensures
        r.0.os == os,
        r.0.arch == arch,
        r.0.state matches State::WritingMarker { asset_urls: a } && a == asset_urls,
        r.1 matches Some(Action::WriteMarker { file, contents }) && file@ == "lsp_ver"@
            && contents == version,
{
    (
        Provisioner { os, arch, state: State::WritingMarker { asset_urls } },
        Some(
            Action::WriteMarker {
                file: String::from_str("lsp_ver"),
                contents: version,
            },
        ),
    )
}

} // verus!
