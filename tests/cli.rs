use opencode_cli::command::merge_envs;
use opencode_cli::sync::{plan_for_parsed, plan_for_versions, version_older};
use opencode_cli::{
    cli_install_path, create_command, install_outcome, install_precheck, is_cli_installed,
    serve_args, serve_command, serve_envs, shell_escape, sync_step, user_shell, ExitStatus, Host,
    InstallError, LogLevel, ProcessEvent, Program, Supervisor, SyncAction, SyncError, SyncEvent,
    Version, VersionOutput,
};

fn v(major: u64, minor: u64, patch: u64) -> Version {
    Version { major, minor, patch }
}

fn host(windows: bool, bridge: bool, shell: &str) -> Host {
    Host {
        windows,
        bridge_enabled: bridge,
        app_version: "1.2.3".to_string(),
        state_dir: "/data/app".to_string(),
        sidecar_path: "/opt/app/opencode-cli".to_string(),
        shell: shell.to_string(),
    }
}

/// Quote removal of one shell word made of single- and double-quoted parts.
fn unquote(w: &str) -> String {
    let mut out = String::new();
    let mut mode = ' ';
    for c in w.chars() {
        match (mode, c) {
            (' ', '\'') => mode = '\'',
            (' ', '"') => mode = '"',
            ('\'', '\'') => mode = ' ',
            ('"', '"') => mode = ' ',
            (' ', c) => {
                assert!(!" \t\n|&;<>()$`\\*?[#~".contains(c));
                out.push(c);
            }
            (_, c) => out.push(c),
        }
    }
    assert_eq!(mode, ' ');
    out
}

#[test]
fn escape_empty() {
    assert_eq!(shell_escape(""), "''");
    assert_eq!(unquote(&shell_escape("")), "");
}

#[test]
fn escape_plain() {
    assert_eq!(shell_escape("abc"), "'abc'");
}

#[test]
fn escape_o_brien() {
    assert_eq!(shell_escape("O'Brien"), "'O'\"'\"'Brien'");
    assert_eq!(unquote(&shell_escape("O'Brien")), "O'Brien");
}

#[test]
fn escape_reads_back() {
    for s in ["a b", "$(rm -rf /)", "''", "tab\there", "x;y|z&", "line\nbreak", "`id`", "\"q\""] {
        assert_eq!(unquote(&shell_escape(s)), s);
    }
}

#[test]
fn merged_envs_defaults_then_extra() {
    let extra = vec![("A".to_string(), "1".to_string())];
    let envs = merge_envs(&"/d".to_string(), &extra);
    assert_eq!(envs.len(), 5);
    assert_eq!(envs[0], ("OPENCODE_EXPERIMENTAL_ICON_DISCOVERY".to_string(), "true".to_string()));
    assert_eq!(envs[2], ("OPENCODE_CLIENT".to_string(), "desktop".to_string()));
    assert_eq!(envs[3], ("XDG_STATE_HOME".to_string(), "/d".to_string()));
    assert_eq!(envs[4], ("A".to_string(), "1".to_string()));
}

fn script_of(inv: &opencode_cli::Invocation) -> String {
    assert!(matches!(&inv.program, Program::Path(p) if p == "wsl"));
    assert_eq!(inv.args[..3], ["-e".to_string(), "bash".to_string(), "-lc".to_string()]);
    inv.args[3].clone()
}

#[test]
fn bridge_exports_have_no_duplicate_names() {
    let extra = vec![
        ("OPENCODE_CLIENT".to_string(), "other".to_string()),
        ("XDG_STATE_HOME".to_string(), "/x".to_string()),
        ("TOKEN".to_string(), "it's".to_string()),
    ];
    let inv = create_command(&host(true, true, "/bin/sh"), "serve", &extra);
    let script = script_of(&inv);
    let last = script.lines().last().unwrap();
    let prefix = last.split(" exec ").next().unwrap();
    let names: Vec<&str> = prefix.split(' ').map(|a| a.split('=').next().unwrap()).collect();
    assert_eq!(
        names,
        vec![
            "OPENCODE_EXPERIMENTAL_ICON_DISCOVERY",
            "OPENCODE_EXPERIMENTAL_FILEWATCHER",
            "OPENCODE_CLIENT",
            "XDG_STATE_HOME",
            "TOKEN"
        ]
    );
    assert!(prefix.ends_with("TOKEN='it'\"'\"'s'"));
    assert!(prefix.contains("OPENCODE_CLIENT=desktop"));
}

#[test]
fn bridge_script_installs_then_execs() {
    let inv = create_command(&host(true, true, "/bin/sh"), "serve --port 4096", &vec![]);
    assert!(inv.envs.is_empty());
    let script = script_of(&inv);
    let lines: Vec<&str> = script.lines().collect();
    assert_eq!(lines[0], "set -e");
    assert_eq!(lines[1], "BIN=\"$HOME/.opencode/bin/opencode\"");
    assert_eq!(lines[2], "if [ ! -x \"$BIN\" ]; then");
    assert_eq!(
        lines[3],
        "  curl -fsSL https://opencode.ai/install | bash -s -- --version '1.2.3' --no-modify-path"
    );
    assert_eq!(lines[4], "fi");
    assert!(lines[5].contains(" exec \"$BIN\" "));
    assert!(lines[5].ends_with("serve --port 4096"));
    assert_eq!(lines.len(), 6);
}

#[test]
fn bridge_version_is_quoted() {
    let mut h = host(true, true, "/bin/sh");
    h.app_version = "1.0; rm -rf ~".to_string();
    let script = script_of(&create_command(&h, "", &vec![]));
    assert!(script.contains("--version '1.0; rm -rf ~' --no-modify-path"));
}

#[test]
fn windows_native_splits_args() {
    let extra = vec![("K".to_string(), "v".to_string())];
    let inv = create_command(&host(true, false, "/bin/sh"), "  serve  --port 4096 ", &extra);
    assert!(matches!(&inv.program, Program::Sidecar(n) if n == "opencode-cli"));
    assert_eq!(inv.args, vec!["serve", "--port", "4096"]);
    assert_eq!(inv.envs.len(), 5);
    assert_eq!(inv.envs[4], ("K".to_string(), "v".to_string()));
}

#[test]
fn windows_native_empty_args() {
    let inv = create_command(&host(true, false, "/bin/sh"), "", &vec![]);
    assert!(inv.args.is_empty());
}

#[test]
fn unix_login_shell() {
    let inv = create_command(&host(false, false, "/bin/zsh"), "--version", &vec![]);
    assert!(matches!(&inv.program, Program::Path(p) if p == "/bin/zsh"));
    assert_eq!(inv.args, vec!["-il", "-c", "\"/opt/app/opencode-cli\" --version"]);
    assert_eq!(inv.envs.len(), 4);
    assert_eq!(inv.envs[3], ("XDG_STATE_HOME".to_string(), "/data/app".to_string()));
}

#[test]
fn unix_nu_shell_gets_caret() {
    let inv = create_command(&host(false, true, "/usr/bin/nu"), "--version", &vec![]);
    assert_eq!(inv.args[2], "^\"/opt/app/opencode-cli\" --version");
}

#[test]
fn user_shell_fallback() {
    assert_eq!(user_shell(None), "/bin/sh");
    assert_eq!(user_shell(Some("/bin/fish".to_string())), "/bin/fish");
}

#[test]
fn serve_invocation() {
    assert_eq!(
        serve_args("127.0.0.1", 4096),
        "--print-logs --log-level WARN serve --hostname 127.0.0.1 --port 4096"
    );
    assert_eq!(serve_args("h", 0), "--print-logs --log-level WARN serve --hostname h --port 0");
    assert!(serve_args("h", 4294967295).ends_with("--port 4294967295"));
    let envs = serve_envs("pw");
    assert_eq!(envs[0], ("OPENCODE_SERVER_USERNAME".to_string(), "opencode".to_string()));
    assert_eq!(envs[1], ("OPENCODE_SERVER_PASSWORD".to_string(), "pw".to_string()));
    let inv = serve_command(&host(false, false, "/bin/bash"), "localhost", 80, "pw");
    assert_eq!(
        inv.args[2],
        "\"/opt/app/opencode-cli\" --print-logs --log-level WARN serve --hostname localhost --port 80"
    );
    assert_eq!(inv.envs.len(), 6);
}

#[test]
fn install_path_under_home() {
    assert_eq!(cli_install_path(Some("/home/u".to_string())).unwrap(), "/home/u/.opencode/bin/opencode");
    assert_eq!(cli_install_path(Some("/home/u/".to_string())).unwrap(), "/home/u/.opencode/bin/opencode");
    assert_eq!(cli_install_path(None), None);
}

#[test]
fn installed_probe() {
    assert!(is_cli_installed(Some(true)));
    assert!(!is_cli_installed(Some(false)));
    assert!(!is_cli_installed(None));
}

#[test]
fn install_checks() {
    assert!(matches!(install_precheck(false, true), Err(InstallError::PlatformUnsupported)));
    assert!(matches!(install_precheck(true, false), Err(InstallError::SidecarMissing)));
    assert!(install_precheck(true, true).is_ok());
    match install_outcome(false, "boom".to_string(), Some("/p".to_string())) {
        Err(InstallError::ScriptExecutionFailure { stderr }) => assert_eq!(stderr, "boom"),
        _ => panic!("expected a script failure"),
    }
    assert!(matches!(install_outcome(true, String::new(), None), Err(InstallError::NoInstallPath)));
    assert_eq!(install_outcome(true, String::new(), Some("/p".to_string())).unwrap(), "/p");
}

fn query(stdout: &str, app: Version) -> SyncAction {
    sync_step(SyncEvent::VersionQueried {
        output: Ok(VersionOutput { success: true, stdout: stdout.to_string() }),
        app_version: app,
    })
}

#[test]
fn sync_older_cli_reinstalls() {
    match query("0.1.0\n", v(0, 2, 0)) {
        SyncAction::Reinstall { installed, app } => {
            assert_eq!(installed, v(0, 1, 0));
            assert_eq!(app, v(0, 2, 0));
        }
        _ => panic!("expected a reinstall"),
    }
}

#[test]
fn sync_newer_cli_does_nothing() {
    assert!(matches!(query("  0.3.0 ", v(0, 2, 0)), SyncAction::Finish { result: Ok(()) }));
    assert!(matches!(query("0.2.0", v(0, 2, 0)), SyncAction::Finish { result: Ok(()) }));
}

#[test]
fn sync_unparsable_version() {
    match query(" not-a-version\n", v(0, 2, 0)) {
        SyncAction::Finish { result: Err(SyncError::VersionParseFailure { raw, reason }) } => {
            assert_eq!(raw, "not-a-version");
            assert!(!reason.is_empty());
        }
        _ => panic!("expected a parse failure"),
    }
}

#[test]
fn sync_query_failures() {
    let failed = sync_step(SyncEvent::VersionQueried { output: Err("gone".to_string()), app_version: v(1, 0, 0) });
    assert!(matches!(failed, SyncAction::Finish { result: Err(SyncError::VersionQueryFailure { .. }) }));
    let bad = sync_step(SyncEvent::VersionQueried {
        output: Ok(VersionOutput { success: false, stdout: "9.9.9".to_string() }),
        app_version: v(1, 0, 0),
    });
    assert!(matches!(bad, SyncAction::Finish { result: Err(SyncError::VersionQueryUnsuccessful) }));
}

#[test]
fn sync_not_installed_does_nothing() {
    let r = sync_step(SyncEvent::Probed { installed: false, cli_path: Some("/p".to_string()) });
    assert!(matches!(r, SyncAction::Finish { result: Ok(()) }));
    let r = sync_step(SyncEvent::Probed { installed: true, cli_path: None });
    assert!(matches!(r, SyncAction::Finish { result: Err(SyncError::NoInstallPath) }));
}

#[test]
fn sync_debug_build_does_nothing() {
    assert!(matches!(sync_step(SyncEvent::Started { debug_build: true }), SyncAction::Finish { result: Ok(()) }));
    assert!(matches!(sync_step(SyncEvent::Started { debug_build: false }), SyncAction::Probe));
}

#[test]
fn sync_release_flow_installs_once() {
    let path = cli_install_path(Some("/home/u".to_string()));
    let mut installs = 0;
    let mut event = SyncEvent::Started { debug_build: false };
    loop {
        match sync_step(event) {
            SyncAction::Probe => {
                event = SyncEvent::Probed { installed: is_cli_installed(Some(true)), cli_path: path.clone() }
            }
            SyncAction::QueryVersion { cli_path } => {
                assert_eq!(cli_path, "/home/u/.opencode/bin/opencode");
                event = SyncEvent::VersionQueried {
                    output: Ok(VersionOutput { success: true, stdout: "0.1.0\n".to_string() }),
                    app_version: v(0, 5, 0),
                }
            }
            SyncAction::Reinstall { .. } => {
                installs += 1;
                event = SyncEvent::Reinstalled { result: install_outcome(true, String::new(), path.clone()) }
            }
            SyncAction::Finish { result } => {
                assert!(result.is_ok());
                break;
            }
        }
    }
    assert_eq!(installs, 1);
    assert_eq!(path.unwrap(), "/home/u/.opencode/bin/opencode");
}

#[test]
fn sync_reinstall_error_surfaces() {
    let r = sync_step(SyncEvent::Reinstalled { result: Err(InstallError::SidecarMissing) });
    assert!(matches!(r, SyncAction::Finish { result: Err(SyncError::Install(InstallError::SidecarMissing)) }));
}

#[test]
fn version_ordering() {
    assert!(version_older(v(0, 1, 0), v(0, 2, 0)));
    assert!(!version_older(v(0, 3, 0), v(0, 2, 0)));
    assert!(!version_older(v(1, 0, 0), v(1, 0, 0)));
    assert!(version_older(v(1, 9, 9), v(2, 0, 0)));
    assert!(version_older(v(1, 2, 3), v(1, 2, 4)));
    assert!(matches!(plan_for_versions(v(0, 1, 0), v(0, 2, 0)), SyncAction::Reinstall { .. }));
    assert!(matches!(plan_for_parsed(Err("bad".to_string()), "x".to_string(), v(0, 2, 0)), SyncAction::Finish { result: Err(_) }));
}

#[test]
fn supervisor_delivers_first_exit_once() {
    let mut s = Supervisor::new();
    let r = s.on_event(ProcessEvent::Stdout("hello".to_string()));
    assert!(matches!(r.log, Some((LogLevel::Info, ref l)) if l == "hello"));
    assert!(r.deliver.is_none());
    let r = s.on_event(ProcessEvent::Stderr("warn".to_string()));
    assert!(matches!(r.log, Some((LogLevel::Info, ref l)) if l == "warn"));
    let r = s.on_event(ProcessEvent::Error("oops".to_string()));
    assert!(matches!(r.log, Some((LogLevel::Error, ref l)) if l == "oops"));
    assert!(r.deliver.is_none());
    assert!(s.exit_pending);
    let first = ExitStatus { code: Some(3), signal: None };
    let r = s.on_event(ProcessEvent::Terminated(first));
    assert_eq!(r.deliver, Some(first));
    assert!(!s.exit_pending);
    let r = s.on_event(ProcessEvent::Terminated(ExitStatus { code: None, signal: Some(9) }));
    assert_eq!(r.deliver, None);
    assert!(s.on_event(ProcessEvent::Other).log.is_none());
}

#[test]
fn supervisor_stays_pending_without_exit() {
    let mut s = Supervisor::new();
    for i in 0..100 {
        let r = s.on_event(ProcessEvent::Stdout(format!("line {i}")));
        assert!(r.deliver.is_none());
    }
    assert!(s.exit_pending);
}

#[test]
fn bridge_exports_repeated_extra_name_once() {
    let extra = vec![
        ("A".to_string(), "1".to_string()),
        ("B".to_string(), "x".to_string()),
        ("A".to_string(), "2".to_string()),
    ];
    let inv = create_command(&host(true, true, "/bin/sh"), "serve", &extra);
    let script = script_of(&inv);
    let last = script.lines().last().unwrap();
    let prefix = last.split(" exec ").next().unwrap();
    assert!(prefix.ends_with("XDG_STATE_HOME=\"$HOME/.local/state\" B='x' A='2'"));
    assert!(!prefix.contains("A='1'"));
}

#[test]
fn unix_empty_args() {
    let inv = create_command(&host(false, false, "/bin/sh"), "", &vec![]);
    assert_eq!(inv.args, vec!["-il", "-c", "\"/opt/app/opencode-cli\" "]);
}
