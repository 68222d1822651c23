use python_plugin::proto::download_prebuilt;
use python_plugin::release::{
    DownloadPrebuiltOutput, PlatformReleases, ReleaseEntry, ReleaseIndex, ResolveError,
};

const DOWNLOAD: &str = "https://example.com/cpython-3.11.4-x86_64-unknown-linux-gnu.tar.gz";
const CHECKSUM: &str = "https://example.com/cpython-3.11.4-x86_64-unknown-linux-gnu.tar.gz.sha256";

fn index() -> ReleaseIndex {
    let mut platforms = PlatformReleases::new();
    platforms.insert(
        "linux-x86_64".to_owned(),
        ReleaseEntry { download: DOWNLOAD.to_owned(), checksum: Some(CHECKSUM.to_owned()) },
    );
    platforms.insert(
        "aarch64-apple-darwin".to_owned(),
        ReleaseEntry { download: "https://example.com/mac.tar.gz".to_owned(), checksum: None },
    );
    let mut index = ReleaseIndex::new();
    index.insert("3.11.4".to_owned(), platforms);
    index.insert("3.12.0".to_owned(), PlatformReleases::new());
    index
}

#[test]
fn listed_version_and_triple_resolve_to_the_entry() {
    let output = download_prebuilt(&index(), "3.11.4", "linux-x86_64");
    assert_eq!(
        output,
        Ok(DownloadPrebuiltOutput {
            archive_prefix: Some("python".to_owned()),
            checksum_url: Some(CHECKSUM.to_owned()),
            download_url: DOWNLOAD.to_owned(),
        })
    );
}

#[test]
fn entry_without_checksum_resolves_without_checksum() {
    let output = download_prebuilt(&index(), "3.11.4", "aarch64-apple-darwin");
    assert_eq!(
        output,
        Ok(DownloadPrebuiltOutput {
            archive_prefix: Some("python".to_owned()),
            checksum_url: None,
            download_url: "https://example.com/mac.tar.gz".to_owned(),
        })
    );
}

#[test]
fn unknown_version_fails_naming_the_version() {
    let error = download_prebuilt(&index(), "9.9.9", "linux-x86_64").unwrap_err();
    assert_eq!(error, ResolveError::UnknownVersion { version: "9.9.9".to_owned() });
    assert_eq!(error.message(), "No pre-built available for version 9.9.9!");
}

#[test]
fn unknown_version_fails_whatever_the_triple() {
    for triple in ["linux-x86_64", "aarch64-apple-darwin", "sparc-unknown-none", ""] {
        let error = download_prebuilt(&index(), "9.9.9", triple).unwrap_err();
        assert_eq!(error, ResolveError::UnknownVersion { version: "9.9.9".to_owned() });
    }
}

#[test]
fn unknown_triple_fails_naming_the_triple() {
    let error = download_prebuilt(&index(), "3.11.4", "sparc-unknown-none").unwrap_err();
    assert_eq!(error, ResolveError::UnknownArchitecture { triple: "sparc-unknown-none".to_owned() });
    assert_eq!(error.message(), "No pre-built available for architecture sparc-unknown-none!");
}

#[test]
fn version_without_releases_fails_on_the_triple() {
    let error = download_prebuilt(&index(), "3.12.0", "linux-x86_64").unwrap_err();
    assert_eq!(error, ResolveError::UnknownArchitecture { triple: "linux-x86_64".to_owned() });
}

#[test]
fn empty_index_lists_no_version() {
    let error = download_prebuilt(&ReleaseIndex::new(), "3.11.4", "linux-x86_64").unwrap_err();
    assert_eq!(error, ResolveError::UnknownVersion { version: "3.11.4".to_owned() });
}

#[test]
fn version_must_match_exactly() {
    for version in ["3.11", "v3.11.4", "3.11.4 ", "3.11.40"] {
        let error = download_prebuilt(&index(), version, "linux-x86_64").unwrap_err();
        assert_eq!(error, ResolveError::UnknownVersion { version: version.to_owned() });
    }
}

#[test]
fn later_insert_replaces_the_entry() {
    let mut platforms = PlatformReleases::new();
    platforms.insert(
        "linux-x86_64".to_owned(),
        ReleaseEntry { download: "first".to_owned(), checksum: None },
    );
    platforms.insert(
        "linux-x86_64".to_owned(),
        ReleaseEntry { download: "second".to_owned(), checksum: Some("sum".to_owned()) },
    );
    let mut index = ReleaseIndex::new();
    index.insert("3.11.4".to_owned(), platforms);
    let output = download_prebuilt(&index, "3.11.4", "linux-x86_64").unwrap();
    assert_eq!(output.download_url, "second");
    assert_eq!(output.checksum_url, Some("sum".to_owned()));
}

#[test]
fn resolution_in_two_steps_agrees_with_the_whole() {
    let index = index();
    let platforms = index.find_version("3.11.4").unwrap();
    let output = platforms.find_release("linux-x86_64");
    assert_eq!(output, download_prebuilt(&index, "3.11.4", "linux-x86_64"));
    assert_eq!(
        index.find_version("9.9.9").err(),
        Some(ResolveError::UnknownVersion { version: "9.9.9".to_owned() })
    );
}
