//! The operations of the plugin.

use crate::command::{pip, pip_command, ExecCommandInput};
use crate::host::{format_bin_name, join, HostOS};
use crate::locate::{locate, LocateBinsOutput, MalformedManifest, ManifestFile};
use crate::release::{resolve_download, DownloadPrebuiltOutput, ReleaseIndex, ResolveError};
use crate::shim::{CreateShimsOutput, ShimConfig, ShimConfigView, ShimMap};
use crate::text::{remove_char, result_view, strings_view};
use crate::tool::{DetectVersionOutput, PluginType, ToolMetadataOutput, ToolMetadataView};
use crate::tags::{is_excluded, normalized_versions};
use crate::version::{from_python_version, is_semantic_version};
use vstd::prelude::*;

verus! {

/// The name of the tool, for people to read.
pub const NAME: &'static str = "Python";

/// Where the index of pre-built releases is published.
pub const RELEASES_URL: &'static str =
    "https://raw.githubusercontent.com/moonrepo/python-plugin/master/releases.json";

/// The repository whose tags name the versions.
pub const TAGS_URL: &'static str = "https://github.com/python/cpython";

/// The name of the manifest file inside the install directory.
pub const MANIFEST_FILE: &'static str = "PYTHON.json";

/// Describes the tool: its name, that it is a language, and the version of
/// the plugin, which the caller hands in.
pub fn register_tool(plugin_version: &str) -> (output: ToolMetadataOutput)
    ensures
        output@ == (ToolMetadataView {
            name: NAME@,
            plugin_version: Some(plugin_version@),
            type_of: PluginType::Language,
        }),
{
    ToolMetadataOutput {
        name: String::from_str(NAME),
        plugin_version: Some(plugin_version.to_owned()),
        type_of: PluginType::Language,
    }
}

/// Resolves the pre-built release of `version` for the platform `triple`.
///
/// Fails with `UnknownVersion` when the index does not list the version, and
/// with `UnknownArchitecture` when the version has no release for the triple.
pub fn download_prebuilt(releases: &ReleaseIndex, version: &str, triple: &str) -> (result: Result<
    DownloadPrebuiltOutput,
    ResolveError,
>)
    ensures
        result_view(result) == resolve_download(releases@, version@, triple@),
{
    match releases.find_version(version) {
        Ok(platforms) => platforms.find_release(triple),
        Err(error) => Err(error),
    }
}

/// Locates the interpreter and the directories of global packages of the
/// install in `install_dir` on `os`, given the state of the manifest file in
/// that directory.
///
/// Without a manifest the interpreter is at its default place inside the
/// install directory. With one, the interpreter is where the manifest says,
/// and on Windows the two script directories of its version are looked up
/// after the default directory. A manifest that could not be parsed fails
/// the locate.
pub fn locate_bins(install_dir: &str, os: HostOS, manifest: ManifestFile) -> (result: Result<
    LocateBinsOutput,
    MalformedManifest,
>)
    ensures
        result_view(result) == locate(install_dir@, os, manifest@),
{
    let mut globals_lookup_dirs: Vec<String> = Vec::new();
    globals_lookup_dirs.push(String::from_str("$HOME/.local/bin"));

    let bin_path = match manifest {
        ManifestFile::Absent => {
            let default_path = join(install_dir, "install/bin/python3");
            format_bin_name(default_path.as_str(), os)
        },
        ManifestFile::Malformed { reason } => {
            return Err(MalformedManifest { reason });
        },
        ManifestFile::Parsed(manifest) => {
            match os {
                HostOS::Windows => {
                    let formatted_version = remove_char(
                        manifest.python_major_minor_version.as_str(),
                        '.',
                    );

                    let mut roaming = String::from_str("$APPDATA/Roaming/Python");
                    roaming.append(formatted_version.as_str());
                    roaming.append("/Scripts");
                    globals_lookup_dirs.push(roaming);

                    let mut local = String::from_str("$APPDATA/Python");
                    local.append(formatted_version.as_str());
                    local.append("/Scripts");
                    globals_lookup_dirs.push(local);
                },
                _ => {},
            }
            manifest.python_exe
        },
    };

    let output = LocateBinsOutput { bin_path, fallback_last_globals_dir: true, globals_lookup_dirs };
    assert(output@.globals_lookup_dirs =~= locate(
        install_dir@,
        os,
        manifest@,
    )->Ok_0.globals_lookup_dirs);
    Ok(output)
}

/// Lists the versions that the tags of the upstream repository stand for, in
/// the order of the tags. A tag that is excluded, or that names no version,
/// adds nothing.
pub fn load_versions(tags: Vec<String>) -> (versions: Vec<String>)
    ensures
        strings_view(versions@) == normalized_versions(strings_view(tags@)),
        forall|i: int| 0 <= i < versions.len() ==> is_semantic_version(#[trigger] versions[i]@),
{
    let ghost all = strings_view(tags@);
    let mut versions: Vec<String> = Vec::new();
    for i in 0..tags.len()
        invariant
            all == strings_view(tags@),
            strings_view(versions@) == normalized_versions(all.take(i as int)),
            forall|j: int| 0 <= j < versions.len() ==> is_semantic_version(#[trigger] versions[j]@),
    {
        assert(all.take(i + 1).drop_last() =~= all.take(i as int));
        let tag = tags[i].as_str();
        if !is_excluded(tag) {
            match from_python_version(tag) {
                Some(version) => {
                    let ghost earlier = strings_view(versions@);
                    versions.push(version);
                    assert(strings_view(versions@) =~= earlier.push(version@));
                },
                None => {},
            }
        }
    }
    assert(all.take(tags.len() as int) =~= all);
    versions
}

/// Names the file that pins the version of a project.
pub fn detect_version_files() -> (output: DetectVersionOutput)
    ensures
        output@ == seq![".python-version"@],
{
    let mut files: Vec<String> = Vec::new();
    files.push(String::from_str(".python-version"));
    let output = DetectVersionOutput { files };
    assert(output@ =~= seq![".python-version"@]);
    output
}

/// Lists the shims to create beside that of the interpreter: one, `pip`,
/// which runs the interpreter with `-m pip` before the arguments of the user,
/// so that no separate binary of the installer is needed.
pub fn create_shims() -> (output: CreateShimsOutput)
    ensures
        output@ == Map::<Seq<char>, ShimConfigView>::empty().insert(
            "pip"@,
            ShimConfigView::global_with_sub_command("-m pip"@),
        ),
        output@.len() == 1,
{
    let mut global_shims = ShimMap::new();
    global_shims.insert(String::from_str("pip"), ShimConfig::global_with_sub_command("-m pip"));
    CreateShimsOutput { global_shims }
}

/// The command that installs `dependency` as a global package of the user.
pub fn install_global(dependency: &str) -> (command: ExecCommandInput)
    ensures
        command@ == pip_command("install"@, "--user"@, dependency@),
{
    pip("install", "--user", dependency)
}

/// The command that removes the global package `dependency` without asking.
pub fn uninstall_global(dependency: &str) -> (command: ExecCommandInput)
    ensures
        command@ == pip_command("uninstall"@, "--yes"@, dependency@),
{
    pip("uninstall", "--yes", dependency)
}

} // verus!
