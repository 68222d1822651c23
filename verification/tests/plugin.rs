use python_plugin::command::{
    ExecCommandInput, ExecCommandOutput, InstallGlobalOutput, UninstallGlobalOutput,
};
use python_plugin::proto::{
    create_shims, detect_version_files, install_global, register_tool, uninstall_global,
};
use python_plugin::shim::{ShimConfig, ShimMap};
use python_plugin::tool::{PluginType, ToolMetadataOutput};

#[test]
fn the_tool_is_the_python_language() {
    assert_eq!(
        register_tool("0.1.0"),
        ToolMetadataOutput {
            name: "Python".to_owned(),
            plugin_version: Some("0.1.0".to_owned()),
            type_of: PluginType::Language,
        }
    );
}

#[test]
fn the_plugin_version_is_handed_through() {
    for version in ["", "1.2.3", "0.0.0-dev"] {
        assert_eq!(register_tool(version).plugin_version, Some(version.to_owned()));
    }
}

#[test]
fn one_file_pins_the_version() {
    assert_eq!(detect_version_files().files, vec![".python-version".to_owned()]);
}

fn sub_command(args: &str) -> ShimConfig {
    ShimConfig {
        bin_path: None,
        parent_bin: None,
        before_args: Some(args.to_owned()),
        after_args: None,
    }
}

#[test]
fn the_only_shim_is_pip_run_as_a_module() {
    let output = create_shims();
    assert_eq!(output.global_shims.len(), 1);
    assert_eq!(output.global_shims.get("pip"), Some(&sub_command("-m pip")));
    assert_eq!(output.global_shims.get("python"), None);
    assert_eq!(
        output.global_shims.into_entries(),
        vec![("pip".to_owned(), sub_command("-m pip"))]
    );
}

#[test]
fn a_shim_map_holds_each_name_once() {
    let mut shims = ShimMap::new();
    assert_eq!(shims.len(), 0);
    assert_eq!(shims.get("pip"), None);
    shims.insert("pip".to_owned(), sub_command("-m pip"));
    shims.insert("venv".to_owned(), sub_command("-m venv"));
    assert_eq!(shims.len(), 2);
    shims.insert("pip".to_owned(), sub_command("-m pip3"));
    assert_eq!(shims.len(), 2);
    assert_eq!(shims.get("pip"), Some(&sub_command("-m pip3")));
    assert_eq!(shims.get("venv"), Some(&sub_command("-m venv")));
    assert_eq!(shims.get("pi"), None);
    assert_eq!(shims.get(""), None);
    let entries = shims.into_entries();
    assert_eq!(entries.len(), 2);
    assert!(entries.contains(&("pip".to_owned(), sub_command("-m pip3"))));
    assert!(entries.contains(&("venv".to_owned(), sub_command("-m venv"))));
}

#[test]
fn shims_are_the_same_on_every_call() {
    assert_eq!(create_shims(), create_shims());
}

#[test]
fn a_sub_command_shim_sets_the_leading_arguments_only() {
    assert_eq!(
        ShimConfig::global_with_sub_command("run"),
        ShimConfig {
            bin_path: None,
            parent_bin: None,
            before_args: Some("run".to_owned()),
            after_args: None,
        }
    );
}

#[test]
fn install_runs_pip_for_the_user() {
    assert_eq!(
        install_global("black"),
        ExecCommandInput {
            args: vec!["install".to_owned(), "--user".to_owned(), "black".to_owned()],
            command: "pip".to_owned(),
            stream: true,
        }
    );
}

#[test]
fn uninstall_runs_pip_without_asking() {
    assert_eq!(
        uninstall_global("black"),
        ExecCommandInput {
            args: vec!["uninstall".to_owned(), "--yes".to_owned(), "black".to_owned()],
            command: "pip".to_owned(),
            stream: true,
        }
    );
}

#[test]
fn the_package_is_one_argument_as_it_was_given() {
    for package in ["black==23.1.0", "two words", "", "--upgrade", "a;b", "\"quoted\""] {
        assert_eq!(install_global(package).args[2], package);
        assert_eq!(install_global(package).args.len(), 3);
        assert_eq!(uninstall_global(package).args[2], package);
        assert_eq!(uninstall_global(package).args.len(), 3);
    }
}

fn finished(exit_code: i32, stderr: &str) -> ExecCommandOutput {
    ExecCommandOutput {
        command: "pip".to_owned(),
        exit_code,
        stderr: stderr.to_owned(),
        stdout: "some output".to_owned(),
    }
}

#[test]
fn status_zero_reports_success_without_an_error() {
    assert_eq!(
        InstallGlobalOutput::from_exec_command(finished(0, "a warning")),
        InstallGlobalOutput { error: None, installed: true }
    );
    assert_eq!(
        UninstallGlobalOutput::from_exec_command(finished(0, "a warning")),
        UninstallGlobalOutput { error: None, uninstalled: true }
    );
}

#[test]
fn any_other_status_reports_the_error_stream_as_it_stands() {
    for exit_code in [1, 2, -1, 127, i32::MAX, i32::MIN] {
        for stderr in ["", "no such package", " spaced \n"] {
            assert_eq!(
                InstallGlobalOutput::from_exec_command(finished(exit_code, stderr)),
                InstallGlobalOutput { error: Some(stderr.to_owned()), installed: false }
            );
            assert_eq!(
                UninstallGlobalOutput::from_exec_command(finished(exit_code, stderr)),
                UninstallGlobalOutput { error: Some(stderr.to_owned()), uninstalled: false }
            );
        }
    }
}
