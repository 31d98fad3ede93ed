//! Platform identification and the fixed lookup tables that map a
//! platform to its download asset and its language-server binary path.

use vstd::prelude::*;

verus! {

/// Operating system of the running host.
#[derive(Clone, Copy, Debug, PartialEq, Eq, Structural)]
pub enum Os {
    Mac,
    Linux,
    Windows,
}

/// CPU architecture of the running host.
#[derive(Clone, Copy, Debug, PartialEq, Eq, Structural)]
pub enum Arch {
    Aarch64,
    X86,
    X8664,
}

/// Archive format of a downloadable language-server asset.
#[derive(Clone, Copy, Debug, PartialEq, Eq, Structural)]
pub enum ArchiveKind {
    Zip,
    GzipTar,
}

/// The platform pairs for which a language-server build is published.
pub open spec fn supported(os: Os, arch: Arch) -> bool {
    ||| (os is Windows && arch is X8664)
    ||| (os is Mac && arch is Aarch64)
    ||| (os is Linux && arch is X8664)
}

/// Position of the platform's asset in a release's asset list.
/// Meaningful only for supported platforms.
pub open spec fn spec_asset_index(os: Os, arch: Arch) -> int
    recommends
        supported(os, arch),
{
    if os is Windows {
        2
    } else if os is Mac {
        0
    } else {
        1
    }
}

/// Archive format of the platform's asset.
/// Meaningful only for supported platforms.
pub open spec fn spec_archive_kind(os: Os, arch: Arch) -> ArchiveKind
    recommends
        supported(os, arch),
{
    if os is Linux {
        ArchiveKind::GzipTar
    } else {
        ArchiveKind::Zip
    }
}

/// Path of the language-server binary once the platform's archive has
/// been extracted; for unsupported platforms, a sentinel that is
/// intentionally invalid as a filesystem path.
pub open spec fn spec_binary_path(os: Os, arch: Arch) -> Seq<char> {
    if os is Windows && arch is X8664 {
        "c3lsp/server/bin/release/c3lsp.exe"@
    } else if supported(os, arch) {
        "c3lsp/server/bin/release/c3lsp"@
    } else {
        "no available lsp!"@
    }
}

/// Looks up the download asset for a platform: the position of the
/// asset in the release's asset list, and its archive format.  Returns
/// `None` exactly for the platforms without a published build, on which
/// no download must be attempted.
pub fn select_asset(os: Os, arch: Arch) -> (r: Option<(usize, ArchiveKind)>)
    ensures
        supported(os, arch) ==> (r matches Some(p) && p.0 == spec_asset_index(os, arch) && p.1
            == spec_archive_kind(os, arch)),
        !supported(os, arch) ==> r is None,
{
    match (os, arch) {
        (Os::Windows, Arch::X8664) => Some((2, ArchiveKind::Zip)),
        (Os::Mac, Arch::Aarch64) => Some((0, ArchiveKind::Zip)),
        (Os::Linux, Arch::X8664) => Some((1, ArchiveKind::GzipTar)),
        _ => None,
    }
}

/// Resolves the expected binary path for a platform; for unsupported
/// platforms this is the sentinel string, not a real path.
pub fn server_binary_path(os: Os, arch: Arch) -> (r: &'static str)
    ensures
        r@ == spec_binary_path(os, arch),
{
    match (os, arch) {
        (Os::Windows, Arch::X8664) => "c3lsp/server/bin/release/c3lsp.exe",
        (Os::Mac, Arch::Aarch64) => "c3lsp/server/bin/release/c3lsp",
        (Os::Linux, Arch::X8664) => "c3lsp/server/bin/release/c3lsp",
        _ => "no available lsp!",
    }
}

} // verus!
