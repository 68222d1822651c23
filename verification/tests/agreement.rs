use python_plugin::command::{ExecCommandOutput, InstallGlobalOutput, UninstallGlobalOutput};
use python_plugin::host::{format_bin_name, HostOS};
use python_plugin::proto::{install_global, load_versions, uninstall_global};
use python_plugin::shim::ShimConfig;

fn outside_os(os: HostOS) -> proto_pdk::HostOS {
    match os {
        HostOS::Android => proto_pdk::HostOS::Android,
        HostOS::Dragonfly => proto_pdk::HostOS::Dragonfly,
        HostOS::FreeBSD => proto_pdk::HostOS::FreeBSD,
        HostOS::IOS => proto_pdk::HostOS::IOS,
        HostOS::Linux => proto_pdk::HostOS::Linux,
        HostOS::MacOS => proto_pdk::HostOS::MacOS,
        HostOS::NetBSD => proto_pdk::HostOS::NetBSD,
        HostOS::OpenBSD => proto_pdk::HostOS::OpenBSD,
        HostOS::Solaris => proto_pdk::HostOS::Solaris,
        HostOS::Windows => proto_pdk::HostOS::Windows,
    }
}

#[test]
fn bin_names_agree_with_the_host_kit() {
    let all = [
        HostOS::Android,
        HostOS::Dragonfly,
        HostOS::FreeBSD,
        HostOS::IOS,
        HostOS::Linux,
        HostOS::MacOS,
        HostOS::NetBSD,
        HostOS::OpenBSD,
        HostOS::Solaris,
        HostOS::Windows,
    ];
    for os in all {
        for name in ["install/bin/python3", "python", "", "a.exe"] {
            assert_eq!(format_bin_name(name, os), proto_pdk::format_bin_name(name, outside_os(os)));
        }
    }
}

#[test]
fn sub_command_shims_agree_with_the_host_kit() {
    for args in ["-m pip", "", "run --now"] {
        let ours = ShimConfig::global_with_sub_command(args);
        let theirs = proto_pdk::ShimConfig::global_with_sub_command(args);
        assert_eq!(ours.bin_path.map(std::path::PathBuf::from), theirs.bin_path);
        assert_eq!(ours.parent_bin, theirs.parent_bin);
        assert_eq!(ours.before_args, theirs.before_args);
        assert_eq!(ours.after_args, theirs.after_args);
    }
}

#[test]
fn pip_commands_agree_with_the_host_kit() {
    for package in ["black", "", "two words"] {
        let ours = install_global(package);
        let theirs = proto_pdk::ExecCommandInput::inherit("pip", ["install", "--user", package]);
        assert_eq!(ours.command, theirs.command);
        assert_eq!(ours.args, theirs.args);
        assert_eq!(ours.stream, theirs.stream);

        let ours = uninstall_global(package);
        let theirs = proto_pdk::ExecCommandInput::inherit("pip", ["uninstall", "--yes", package]);
        assert_eq!(ours.command, theirs.command);
        assert_eq!(ours.args, theirs.args);
        assert_eq!(ours.stream, theirs.stream);
    }
}

#[test]
fn listed_versions_are_read_as_semantic_versions() {
    let tags = ["v3.11.4", "v2.7", "v3.12.0a1", "v3.12.0b4", "v2.0c1", "v3.12.0rc2", "v0.9.8"];
    let versions = load_versions(tags.iter().map(|tag| tag.to_string()).collect());
    assert_eq!(versions.len(), tags.len());
    for version in &versions {
        let parsed = proto_pdk::Version::parse(version).unwrap();
        assert_eq!(&parsed.to_string(), version);
    }
    let output = proto_pdk::LoadVersionsOutput::from(versions).unwrap();
    assert_eq!(output.versions.len(), tags.len());
    assert_eq!(output.latest, Some(proto_pdk::Version::new(3, 11, 4)));
}

#[test]
fn the_largest_numbers_are_read_as_semantic_versions() {
    let tags = ["v18446744073709551615.18446744073709551615.18446744073709551615b18446744073709551615"];
    let versions = load_versions(tags.iter().map(|tag| tag.to_string()).collect());
    assert_eq!(versions.len(), 1);
    let parsed = proto_pdk::Version::parse(&versions[0]).unwrap();
    assert_eq!(parsed.major, u64::MAX);
    assert_eq!(parsed.minor, u64::MAX);
    assert_eq!(parsed.patch, u64::MAX);
    assert_eq!(parsed.pre.as_str(), "beta.18446744073709551615");
}

#[test]
fn pre_releases_are_ordered_by_stage_and_number() {
    let tags = ["v3.12.0a1", "v3.12.0a2", "v3.12.0a10", "v3.12.0b1", "v3.12.0rc1", "v3.12.0"];
    let versions = load_versions(tags.iter().map(|tag| tag.to_string()).collect());
    let parsed: Vec<proto_pdk::Version> =
        versions.iter().map(|version| proto_pdk::Version::parse(version).unwrap()).collect();
    for pair in parsed.windows(2) {
        assert!(pair[0] < pair[1], "{} < {}", pair[0], pair[1]);
    }
}

#[test]
fn command_outcomes_agree_with_the_host_kit() {
    for exit_code in [0, 1, -1, 127] {
        for stderr in ["", "no such package"] {
            let ours = || ExecCommandOutput {
                command: "pip".to_owned(),
                exit_code,
                stderr: stderr.to_owned(),
                stdout: "out".to_owned(),
            };
            let theirs = || proto_pdk::ExecCommandOutput {
                command: "pip".to_owned(),
                exit_code,
                stderr: stderr.to_owned(),
                stdout: "out".to_owned(),
            };

            let installed = InstallGlobalOutput::from_exec_command(ours());
            let expected = proto_pdk::InstallGlobalOutput::from_exec_command(theirs());
            assert_eq!(installed.installed, expected.installed);
            assert_eq!(installed.error, expected.error);

            let removed = UninstallGlobalOutput::from_exec_command(ours());
            let expected = proto_pdk::UninstallGlobalOutput::from_exec_command(theirs());
            assert_eq!(removed.uninstalled, expected.uninstalled);
            assert_eq!(removed.error, expected.error);
        }
    }
}
