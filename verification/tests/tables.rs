use c3_extension::platform::{select_asset, server_binary_path, Arch, ArchiveKind, Os};

#[test]
fn windows_x86_64_asset_and_path() {
    assert_eq!(select_asset(Os::Windows, Arch::X8664), Some((2, ArchiveKind::Zip)));
    assert_eq!(server_binary_path(Os::Windows, Arch::X8664), "c3lsp/server/bin/release/c3lsp.exe");
}

#[test]
fn mac_aarch64_asset_and_path() {
    assert_eq!(select_asset(Os::Mac, Arch::Aarch64), Some((0, ArchiveKind::Zip)));
    assert_eq!(server_binary_path(Os::Mac, Arch::Aarch64), "c3lsp/server/bin/release/c3lsp");
}

#[test]
fn linux_x86_64_asset_and_path() {
    assert_eq!(select_asset(Os::Linux, Arch::X8664), Some((1, ArchiveKind::GzipTar)));
    assert_eq!(server_binary_path(Os::Linux, Arch::X8664), "c3lsp/server/bin/release/c3lsp");
}

#[test]
fn unsupported_platforms_have_no_asset() {
    let unsupported = [
        (Os::Mac, Arch::X8664),
        (Os::Mac, Arch::X86),
        (Os::Linux, Arch::Aarch64),
        (Os::Linux, Arch::X86),
        (Os::Windows, Arch::Aarch64),
        (Os::Windows, Arch::X86),
    ];
    for (os, arch) in unsupported {
        assert_eq!(select_asset(os, arch), None);
        assert_eq!(server_binary_path(os, arch), "no available lsp!");
    }
}
