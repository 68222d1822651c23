use python_plugin::host::{format_bin_name, join, HostOS};
use python_plugin::locate::{LocateBinsOutput, MalformedManifest, ManifestFile, PythonManifest};
use python_plugin::proto::locate_bins;

const ALL_OS: [HostOS; 10] = [
    HostOS::Android,
    HostOS::Dragonfly,
    HostOS::FreeBSD,
    HostOS::IOS,
    HostOS::Linux,
    HostOS::MacOS,
    HostOS::NetBSD,
    HostOS::OpenBSD,
    HostOS::Solaris,
    HostOS::Windows,
];

fn manifest(exe: &str, version: &str) -> ManifestFile {
    ManifestFile::Parsed(PythonManifest {
        python_exe: exe.to_owned(),
        python_major_minor_version: version.to_owned(),
    })
}

#[test]
fn no_manifest_gives_the_default_path_and_directory() {
    let output = locate_bins("/t", HostOS::Linux, ManifestFile::Absent);
    assert_eq!(
        output,
        Ok(LocateBinsOutput {
            bin_path: "/t/install/bin/python3".to_owned(),
            fallback_last_globals_dir: true,
            globals_lookup_dirs: vec!["$HOME/.local/bin".to_owned()],
        })
    );
}

#[test]
fn no_manifest_on_windows_names_the_executable_with_its_extension() {
    let output = locate_bins("/t", HostOS::Windows, ManifestFile::Absent);
    assert_eq!(
        output,
        Ok(LocateBinsOutput {
            bin_path: "/t/install/bin/python3.exe".to_owned(),
            fallback_last_globals_dir: true,
            globals_lookup_dirs: vec!["$HOME/.local/bin".to_owned()],
        })
    );
}

#[test]
fn no_manifest_on_every_os() {
    for os in ALL_OS {
        let output = locate_bins("/t", os, ManifestFile::Absent).unwrap();
        let expected =
            if os == HostOS::Windows { "/t/install/bin/python3.exe" } else { "/t/install/bin/python3" };
        assert_eq!(output.bin_path, expected);
        assert_eq!(output.globals_lookup_dirs, vec!["$HOME/.local/bin".to_owned()]);
        assert!(output.fallback_last_globals_dir);
    }
}

#[test]
fn manifest_on_windows_adds_both_script_directories_in_order() {
    let output = locate_bins("/t", HostOS::Windows, manifest("/x/bin/py3", "3.12"));
    assert_eq!(
        output,
        Ok(LocateBinsOutput {
            bin_path: "/x/bin/py3".to_owned(),
            fallback_last_globals_dir: true,
            globals_lookup_dirs: vec![
                "$HOME/.local/bin".to_owned(),
                "$APPDATA/Roaming/Python312/Scripts".to_owned(),
                "$APPDATA/Python312/Scripts".to_owned(),
            ],
        })
    );
}

#[test]
fn manifest_elsewhere_overrides_the_path_only() {
    for os in ALL_OS {
        if os == HostOS::Windows {
            continue;
        }
        let output = locate_bins("/t", os, manifest("/x/bin/py3", "3.12"));
        assert_eq!(
            output,
            Ok(LocateBinsOutput {
                bin_path: "/x/bin/py3".to_owned(),
                fallback_last_globals_dir: true,
                globals_lookup_dirs: vec!["$HOME/.local/bin".to_owned()],
            })
        );
    }
}

#[test]
fn manifest_path_is_taken_as_it_stands() {
    let output = locate_bins("/t", HostOS::Windows, manifest("install/python", "3.11")).unwrap();
    assert_eq!(output.bin_path, "install/python");
    let output = locate_bins("/t", HostOS::Linux, manifest("", "3.11")).unwrap();
    assert_eq!(output.bin_path, "");
}

#[test]
fn every_separator_of_the_version_is_stripped() {
    let cases = [
        ("3.11", "311"),
        ("3.9", "39"),
        ("3", "3"),
        ("", ""),
        ("...", ""),
        ("3.11.4", "3114"),
        (".3.", "3"),
        ("3-11", "3-11"),
    ];
    for (version, stripped) in cases {
        let output = locate_bins("/t", HostOS::Windows, manifest("py", version)).unwrap();
        assert_eq!(
            output.globals_lookup_dirs,
            vec![
                "$HOME/.local/bin".to_owned(),
                format!("$APPDATA/Roaming/Python{}/Scripts", stripped),
                format!("$APPDATA/Python{}/Scripts", stripped),
            ]
        );
    }
}

#[test]
fn malformed_manifest_fails_on_every_os() {
    for os in ALL_OS {
        let output =
            locate_bins("/t", os, ManifestFile::Malformed { reason: "expected value".to_owned() });
        assert_eq!(output, Err(MalformedManifest { reason: "expected value".to_owned() }));
    }
}

#[test]
fn fallback_flag_is_set_whenever_the_locate_succeeds() {
    for os in ALL_OS {
        assert!(locate_bins("/t", os, ManifestFile::Absent).unwrap().fallback_last_globals_dir);
        assert!(locate_bins("/t", os, manifest("py", "3.8")).unwrap().fallback_last_globals_dir);
    }
}

#[test]
fn bin_name_gets_an_extension_on_windows_only() {
    for os in ALL_OS {
        let expected = if os == HostOS::Windows { "python3.exe" } else { "python3" };
        assert_eq!(format_bin_name("python3", os), expected);
    }
    assert_eq!(format_bin_name("", HostOS::Windows), ".exe");
    assert_eq!(format_bin_name("", HostOS::Linux), "");
}

#[test]
fn the_default_path_is_joined_to_the_install_directory() {
    let cases = [
        ("/t", "/t/install/bin/python3"),
        ("/t/", "/t/install/bin/python3"),
        ("", "install/bin/python3"),
        ("/", "/install/bin/python3"),
        ("tools/python/3.11.4", "tools/python/3.11.4/install/bin/python3"),
        ("/proto/tools/python/3.11.4/", "/proto/tools/python/3.11.4/install/bin/python3"),
        ("/t//", "/t//install/bin/python3"),
        ("C:\\tools", "C:\\tools/install/bin/python3"),
    ];
    for (install_dir, expected) in cases {
        let output = locate_bins(install_dir, HostOS::Linux, ManifestFile::Absent).unwrap();
        assert_eq!(output.bin_path, expected);
        let output = locate_bins(install_dir, HostOS::Windows, ManifestFile::Absent).unwrap();
        assert_eq!(output.bin_path, format!("{}.exe", expected));
    }
}

#[test]
fn the_install_directory_does_not_touch_a_recorded_path() {
    for install_dir in ["", "/t", "/t/", "elsewhere"] {
        let output = locate_bins(install_dir, HostOS::Windows, manifest("/x/bin/py3", "3.12"));
        assert_eq!(output.unwrap().bin_path, "/x/bin/py3");
        let output = locate_bins(install_dir, HostOS::Linux, manifest("bin/py3", "3.12"));
        assert_eq!(output.unwrap().bin_path, "bin/py3");
    }
}

#[test]
fn the_install_directory_does_not_save_a_malformed_manifest() {
    for install_dir in ["", "/t", "/t/"] {
        let output = locate_bins(
            install_dir,
            HostOS::Linux,
            ManifestFile::Malformed { reason: "eof".to_owned() },
        );
        assert_eq!(output, Err(MalformedManifest { reason: "eof".to_owned() }));
    }
}

#[test]
fn joining_puts_one_separator_between_directory_and_fragment() {
    assert_eq!(join("/t", "a/b"), "/t/a/b");
    assert_eq!(join("/t/", "a/b"), "/t/a/b");
    assert_eq!(join("", "a/b"), "a/b");
    assert_eq!(join("/", "a"), "/a");
    assert_eq!(join("t", ""), "t/");
    assert_eq!(join("", ""), "");
    assert_eq!(join("日本", "a"), "日本/a");
}
