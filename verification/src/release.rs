//! The release index: which pre-built archive serves a version on a platform.

use crate::text::{clone_option, option_view, result_view};
use vstd::hash_map::StringHashMap;
use vstd::prelude::*;

verus! {

/// One pre-built release: where to download it and, if published, its checksum.
#[derive(Debug, PartialEq, Eq)]
pub struct ReleaseEntry {
    /// Where the archive is published.
    pub download: String,
    /// Where the checksum of the archive is published. Without it the
    /// archive is taken unverified.
    pub checksum: Option<String>,
}

/// A release, as sequences of characters.
pub struct ReleaseEntryView {
    pub download: Seq<char>,
    pub checksum: Option<Seq<char>>,
}

impl View for ReleaseEntry {
    type V = ReleaseEntryView;

    open spec fn view(&self) -> ReleaseEntryView {
        ReleaseEntryView { download: self.download@, checksum: option_view(self.checksum) }
    }
}

/// The releases of one version, keyed by platform triple.
pub struct PlatformReleases {
    releases: StringHashMap<ReleaseEntry>,
}

impl View for PlatformReleases {
    type V = Map<Seq<char>, ReleaseEntryView>;

    closed spec fn view(&self) -> Map<Seq<char>, ReleaseEntryView> {
        self.releases@.map_values(|entry: ReleaseEntry| entry@)
    }
}

impl PlatformReleases {
    /// No release for any platform.
    pub fn new() -> (platforms: Self)
        ensures
            platforms@ == Map::<Seq<char>, ReleaseEntryView>::empty(),
    {
        let platforms = PlatformReleases { releases: StringHashMap::new() };
        assert(platforms@ =~= Map::<Seq<char>, ReleaseEntryView>::empty());
        platforms
    }

    /// Records `entry` as the release for `triple`, in place of an earlier one.
    pub fn insert(&mut self, triple: String, entry: ReleaseEntry)
        ensures
            final(self)@ == old(self)@.insert(triple@, entry@),
    {
        self.releases.insert(triple, entry);
        assert(self@ =~= old(self)@.insert(triple@, entry@));
    }

    /// The release for `triple`, if there is one.
    pub fn get(&self, triple: &str) -> (found: Option<&ReleaseEntry>)
        ensures
            match found {
                Some(entry) => self@.contains_key(triple@) && entry@ == self@[triple@],
                None => !self@.contains_key(triple@),
            },
    {
        self.releases.get(triple)
    }
}

/// The whole index: version, then platform triple, then release.
pub struct ReleaseIndex {
    versions: StringHashMap<PlatformReleases>,
}

impl View for ReleaseIndex {
    type V = Map<Seq<char>, Map<Seq<char>, ReleaseEntryView>>;

    closed spec fn view(&self) -> Map<Seq<char>, Map<Seq<char>, ReleaseEntryView>> {
        self.versions@.map_values(|platforms: PlatformReleases| platforms@)
    }
}

impl ReleaseIndex {
    /// An index without versions.
    pub fn new() -> (index: Self)
        ensures
            index@ == Map::<Seq<char>, Map<Seq<char>, ReleaseEntryView>>::empty(),
    {
        let index = ReleaseIndex { versions: StringHashMap::new() };
        assert(index@ =~= Map::<Seq<char>, Map<Seq<char>, ReleaseEntryView>>::empty());
        index
    }

    /// Records `platforms` as the releases of `version`, in place of earlier ones.
    pub fn insert(&mut self, version: String, platforms: PlatformReleases)
        ensures
            final(self)@ == old(self)@.insert(version@, platforms@),
    {
        self.versions.insert(version, platforms);
        assert(self@ =~= old(self)@.insert(version@, platforms@));
    }

    /// The releases of `version`, if the index lists it.
    pub fn get(&self, version: &str) -> (found: Option<&PlatformReleases>)
        ensures
            match found {
                Some(platforms) => self@.contains_key(version@) && platforms@ == self@[version@],
                None => !self@.contains_key(version@),
            },
    {
        self.versions.get(version)
    }
}

/// Why no download could be resolved.
#[derive(Debug, PartialEq, Eq)]
pub enum ResolveError {
    /// The index lists no pre-built release of the version.
    UnknownVersion { version: String },
    /// The version has no pre-built release for the platform triple.
    UnknownArchitecture { triple: String },
}

/// The failure of a resolution, as sequences of characters.
pub enum ResolveErrorView {
    UnknownVersion { version: Seq<char> },
    UnknownArchitecture { triple: Seq<char> },
}

impl View for ResolveError {
    type V = ResolveErrorView;

    open spec fn view(&self) -> ResolveErrorView {
        match *self {
            ResolveError::UnknownVersion { version } => ResolveErrorView::UnknownVersion {
                version: version@,
            },
            ResolveError::UnknownArchitecture { triple } => ResolveErrorView::UnknownArchitecture {
                triple: triple@,
            },
        }
    }
}

impl ResolveErrorView {
    /// The report of the failure, which names the key that was missing.
    pub open spec fn message(self) -> Seq<char> {
        match self {
            ResolveErrorView::UnknownVersion { version } => "No pre-built available for version "@
                + version + "!"@,
            ResolveErrorView::UnknownArchitecture { triple } =>
                "No pre-built available for architecture "@ + triple + "!"@,
        }
    }
}

impl ResolveError {
    /// The report of the failure, which names the key that was missing.
    pub fn message(&self) -> (text: String)
        ensures
            text@ == self@.message(),
    {
        match self {
            ResolveError::UnknownVersion { version } => {
                let mut text = String::from_str("No pre-built available for version ");
                text.append(version.as_str());
                text.append("!");
                text
            },
            ResolveError::UnknownArchitecture { triple } => {
                let mut text = String::from_str("No pre-built available for architecture ");
                text.append(triple.as_str());
                text.append("!");
                text
            },
        }
    }
}

/// What to download for a version on a platform.
#[derive(Debug, PartialEq, Eq)]
pub struct DownloadPrebuiltOutput {
    /// The directory inside the archive that holds the tool.
    pub archive_prefix: Option<String>,
    /// Where the checksum of the archive is published, if it is.
    pub checksum_url: Option<String>,
    /// Where the archive is published.
    pub download_url: String,
}

/// A download, as sequences of characters.
pub struct DownloadPrebuiltView {
    pub archive_prefix: Option<Seq<char>>,
    pub checksum_url: Option<Seq<char>>,
    pub download_url: Seq<char>,
}

impl View for DownloadPrebuiltOutput {
    type V = DownloadPrebuiltView;

    open spec fn view(&self) -> DownloadPrebuiltView {
        DownloadPrebuiltView {
            archive_prefix: option_view(self.archive_prefix),
            checksum_url: option_view(self.checksum_url),
            download_url: self.download_url@,
        }
    }
}

/// The download that `entry` describes: its two addresses as they stand, and
/// the directory that every archive keeps the tool in.
pub open spec fn download_of(entry: ReleaseEntryView) -> DownloadPrebuiltView {
    DownloadPrebuiltView {
        archive_prefix: Some("python"@),
        checksum_url: entry.checksum,
        download_url: entry.download,
    }
}

/// The releases of `version`, or the failure that names the version.
pub open spec fn resolve_version(
    index: Map<Seq<char>, Map<Seq<char>, ReleaseEntryView>>,
    version: Seq<char>,
) -> Result<Map<Seq<char>, ReleaseEntryView>, ResolveErrorView> {
    if index.contains_key(version) {
        Ok(index[version])
    } else {
        Err(ResolveErrorView::UnknownVersion { version })
    }
}

/// The download for `triple` among the releases of one version, or the
/// failure that names the triple.
pub open spec fn resolve_release(
    platforms: Map<Seq<char>, ReleaseEntryView>,
    triple: Seq<char>,
) -> Result<DownloadPrebuiltView, ResolveErrorView> {
    if platforms.contains_key(triple) {
        Ok(download_of(platforms[triple]))
    } else {
        Err(ResolveErrorView::UnknownArchitecture { triple })
    }
}

/// The download for `version` on `triple`. A version that is not listed is
/// reported before the triple is looked at.
pub open spec fn resolve_download(
    index: Map<Seq<char>, Map<Seq<char>, ReleaseEntryView>>,
    version: Seq<char>,
    triple: Seq<char>,
) -> Result<DownloadPrebuiltView, ResolveErrorView> {
    match resolve_version(index, version) {
        Ok(platforms) => resolve_release(platforms, triple),
        Err(error) => Err(error),
    }
}

/// A download is resolved exactly when the index lists the version and the
/// version has a release for the triple; it then holds the two addresses of
/// that release and the fixed archive prefix. A version that is not listed
/// fails naming the version, whatever the triple; a listed version without a
/// release for the triple fails naming the triple.
pub proof fn lemma_resolve_download(
    index: Map<Seq<char>, Map<Seq<char>, ReleaseEntryView>>,
    version: Seq<char>,
    triple: Seq<char>,
)
    ensures
        resolve_download(index, version, triple) is Ok <==> index.contains_key(version)
            && index[version].contains_key(triple),
        index.contains_key(version) && index[version].contains_key(triple) ==> resolve_download(
            index,
            version,
            triple,
        ) == Ok::<DownloadPrebuiltView, ResolveErrorView>(
            DownloadPrebuiltView {
                archive_prefix: Some("python"@),
                checksum_url: index[version][triple].checksum,
                download_url: index[version][triple].download,
            },
        ),
        !index.contains_key(version) ==> resolve_download(index, version, triple) == Err::<
            DownloadPrebuiltView,
            ResolveErrorView,
        >(ResolveErrorView::UnknownVersion { version }),
        index.contains_key(version) && !index[version].contains_key(triple) ==> resolve_download(
            index,
            version,
            triple,
        ) == Err::<DownloadPrebuiltView, ResolveErrorView>(
            ResolveErrorView::UnknownArchitecture { triple },
        ),
{
}

impl ReleaseIndex {
    /// The first step of a resolution: the releases of `version`.
    pub fn find_version(&self, version: &str) -> (found: Result<&PlatformReleases, ResolveError>)
        ensures
            result_view(found) == resolve_version(self@, version@),
    {
        match self.get(version) {
            Some(platforms) => Ok(platforms),
            None => Err(ResolveError::UnknownVersion { version: version.to_owned() }),
        }
    }
}

impl PlatformReleases {
    /// The second step of a resolution: the download for `triple`.
    pub fn find_release(&self, triple: &str) -> (found: Result<
        DownloadPrebuiltOutput,
        ResolveError,
    >)
        ensures
            result_view(found) == resolve_release(self@, triple@),
    {
        match self.get(triple) {
            Some(entry) => Ok(
                DownloadPrebuiltOutput {
                    archive_prefix: Some(String::from_str("python")),
                    checksum_url: clone_option(&entry.checksum),
                    download_url: entry.download.clone(),
                },
            ),
            None => Err(ResolveError::UnknownArchitecture { triple: triple.to_owned() }),
        }
    }
}

} // verus!
