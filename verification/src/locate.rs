//! Where an installed interpreter and its global packages are found.

use crate::host::{bin_name, joined, HostOS};
use crate::text::{strings_view, without_char};
use vstd::prelude::*;

verus! {

/// What the installer of a pre-built release records about the install.
#[derive(Debug, PartialEq, Eq)]
pub struct PythonManifest {
    /// The path of the interpreter.
    pub python_exe: String,
    /// The version of the interpreter, as `major.minor`.
    pub python_major_minor_version: String,
}

/// What a manifest records, as sequences of characters.
pub struct PythonManifestView {
    pub python_exe: Seq<char>,
    pub python_major_minor_version: Seq<char>,
}

impl View for PythonManifest {
    type V = PythonManifestView;

    open spec fn view(&self) -> PythonManifestView {
        PythonManifestView {
            python_exe: self.python_exe@,
            python_major_minor_version: self.python_major_minor_version@,
        }
    }
}

/// The state of the manifest file in the install directory.
#[derive(Debug, PartialEq, Eq)]
pub enum ManifestFile {
    /// There is no manifest: the tool was built from source, or the installer
    /// wrote none.
    Absent,
    /// There is a manifest, and its content could not be parsed.
    Malformed { reason: String },
    /// There is a manifest, with this content.
    Parsed(PythonManifest),
}

/// The state of the manifest file, as sequences of characters.
pub enum ManifestFileView {
    Absent,
    Malformed { reason: Seq<char> },
    Parsed(PythonManifestView),
}

impl View for ManifestFile {
    type V = ManifestFileView;

    open spec fn view(&self) -> ManifestFileView {
        match *self {
            ManifestFile::Absent => ManifestFileView::Absent,
            ManifestFile::Malformed { reason } => ManifestFileView::Malformed { reason: reason@ },
            ManifestFile::Parsed(manifest) => ManifestFileView::Parsed(manifest@),
        }
    }
}

/// The failure of a locate: the install directory holds a manifest that
/// cannot be parsed.
#[derive(Debug, PartialEq, Eq)]
pub struct MalformedManifest {
    /// What the parser reported.
    pub reason: String,
}

/// The failure of a locate, as sequences of characters.
pub struct MalformedManifestView {
    pub reason: Seq<char>,
}

impl View for MalformedManifest {
    type V = MalformedManifestView;

    open spec fn view(&self) -> MalformedManifestView {
        MalformedManifestView { reason: self.reason@ }
    }
}

/// Where the interpreter is, and where globally installed packages are looked up.
#[derive(Debug, PartialEq, Eq)]
pub struct LocateBinsOutput {
    /// The path of the interpreter.
    pub bin_path: String,
    /// Whether the last lookup directory is the home of new global packages
    /// when none of the directories holds any.
    pub fallback_last_globals_dir: bool,
    /// The directories that hold global packages; the first is looked at first.
    pub globals_lookup_dirs: Vec<String>,
}

/// The result of a locate, as sequences of characters.
pub struct LocateBinsView {
    pub bin_path: Seq<char>,
    pub fallback_last_globals_dir: bool,
    pub globals_lookup_dirs: Seq<Seq<char>>,
}

impl View for LocateBinsOutput {
    type V = LocateBinsView;

    open spec fn view(&self) -> LocateBinsView {
        LocateBinsView {
            bin_path: self.bin_path@,
            fallback_last_globals_dir: self.fallback_last_globals_dir,
            globals_lookup_dirs: strings_view(self.globals_lookup_dirs@),
        }
    }
}

/// The interpreter of an install without a manifest: `install/bin/python3`
/// inside the install directory, named as `os` asks.
pub open spec fn default_bin_path(install_dir: Seq<char>, os: HostOS) -> Seq<char> {
    bin_name(joined(install_dir, "install/bin/python3"@), os)
}

/// The lookup directory that every install has.
pub open spec fn default_globals_dir() -> Seq<char> {
    "$HOME/.local/bin"@
}

/// The script directory under the roaming profile of Windows, for the
/// interpreter of version `major_minor`.
pub open spec fn roaming_scripts_dir(major_minor: Seq<char>) -> Seq<char> {
    "$APPDATA/Roaming/Python"@ + without_char(major_minor, '.') + "/Scripts"@
}

/// The script directory under the local profile of Windows, for the
/// interpreter of version `major_minor`.
pub open spec fn local_scripts_dir(major_minor: Seq<char>) -> Seq<char> {
    "$APPDATA/Python"@ + without_char(major_minor, '.') + "/Scripts"@
}

/// The script directories of the interpreter of version `major_minor`, in
/// the order of the lookup: on Windows the roaming one, then the local one;
/// elsewhere none.
pub open spec fn scripts_dirs(os: HostOS, major_minor: Seq<char>) -> Seq<Seq<char>> {
    if os is Windows {
        seq![roaming_scripts_dir(major_minor), local_scripts_dir(major_minor)]
    } else {
        Seq::empty()
    }
}

/// The result of a locate in the install directory `install_dir` on `os`,
/// given the state of the manifest file.
///
/// Without a manifest the interpreter is at its default place inside the
/// install directory; the path that a manifest records is taken as it
/// stands. The default directory is always looked up first. The script
/// directories follow it only where a manifest tells the version.
pub open spec fn locate(install_dir: Seq<char>, os: HostOS, manifest: ManifestFileView) -> Result<
    LocateBinsView,
    MalformedManifestView,
> {
    match manifest {
        ManifestFileView::Absent => Ok(
            LocateBinsView {
                bin_path: default_bin_path(install_dir, os),
                fallback_last_globals_dir: true,
                globals_lookup_dirs: seq![default_globals_dir()],
            },
        ),
        ManifestFileView::Malformed { reason } => Err(MalformedManifestView { reason }),
        ManifestFileView::Parsed(manifest) => Ok(
            LocateBinsView {
                bin_path: manifest.python_exe,
                fallback_last_globals_dir: true,
                globals_lookup_dirs: seq![default_globals_dir()] + scripts_dirs(
                    os,
                    manifest.python_major_minor_version,
                ),
            },
        ),
    }
}

/// Without a manifest, a locate gives the default path of the interpreter
/// joined to the install directory and named as the host asks, and the
/// default lookup directory alone.
pub proof fn lemma_locate_without_manifest(install_dir: Seq<char>, os: HostOS)
    ensures
        locate(install_dir, os, ManifestFileView::Absent) == Ok::<
            LocateBinsView,
            MalformedManifestView,
        >(
            LocateBinsView {
                bin_path: (if install_dir.len() == 0 || install_dir.last() == '/' {
                    install_dir
                } else {
                    install_dir + "/"@
                }) + "install/bin/python3"@ + (if os is Windows {
                    ".exe"@
                } else {
                    ""@
                }),
                fallback_last_globals_dir: true,
                globals_lookup_dirs: seq!["$HOME/.local/bin"@],
            },
        ),
{
    reveal_strlit("");
    let path = joined(install_dir, "install/bin/python3"@);
    assert(path + ""@ =~= path);
}

/// With a manifest, a locate gives the path that the manifest records,
/// whatever the install directory. On Windows the roaming and the local
/// script directory of the recorded version follow the default directory, in
/// this order; elsewhere the default directory stands alone.
pub proof fn lemma_locate_with_manifest(
    install_dir: Seq<char>,
    os: HostOS,
    manifest: PythonManifestView,
)
    ensures
        locate(install_dir, os, ManifestFileView::Parsed(manifest)) == Ok::<
            LocateBinsView,
            MalformedManifestView,
        >(
            LocateBinsView {
                bin_path: manifest.python_exe,
                fallback_last_globals_dir: true,
                globals_lookup_dirs: if os is Windows {
                    seq![
                        "$HOME/.local/bin"@,
                        roaming_scripts_dir(manifest.python_major_minor_version),
                        local_scripts_dir(manifest.python_major_minor_version),
                    ]
                } else {
                    seq!["$HOME/.local/bin"@]
                },
            },
        ),
{
    let version = manifest.python_major_minor_version;
    assert(seq![default_globals_dir()] + scripts_dirs(os, version) =~= if os is Windows {
        seq![default_globals_dir(), roaming_scripts_dir(version), local_scripts_dir(version)]
    } else {
        seq![default_globals_dir()]
    });
}

/// A locate fails exactly when the manifest is malformed: it never falls
/// back to the default path then. Whenever it succeeds, the default
/// directory is looked up first and the fallback flag is set.
pub proof fn lemma_locate_fails_on_malformed_manifest_only(
    install_dir: Seq<char>,
    os: HostOS,
    manifest: ManifestFileView,
)
    ensures
        locate(install_dir, os, manifest) is Err <==> manifest is Malformed,
        manifest matches ManifestFileView::Malformed { reason } ==> locate(
            install_dir,
            os,
            manifest,
        ) == Err::<LocateBinsView, MalformedManifestView>(MalformedManifestView { reason }),
        locate(install_dir, os, manifest) matches Ok(output) ==> output.fallback_last_globals_dir
            && output.globals_lookup_dirs.len() >= 1 && output.globals_lookup_dirs[0]
            == default_globals_dir(),
{
}

} // verus!
