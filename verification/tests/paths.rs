use ak_platform::config::Config;
use ak_platform::paths::{
    agent_socket_path, push_path_segment, sysd_config_file, sysd_ctrl_relay_path, sysd_socket_path,
    sysd_state_file, xdg_config_path, xdg_data_path, AgentSocketID, PathError, SysdSocketID, DEFAULT_PROFILE,
};
use ak_platform::platform_string::{os_from_name, PlatformString, TargetOs};

#[test]
fn test_agent_default_macos() {
    let home = "/Users/jane";
    let data = format!("{}/Library/Application Support", home);
    assert_eq!(
        agent_socket_path(AgentSocketID::Default, None, Some(data)).unwrap().for_platform("macos"),
        format!("{}/Library/Application Support/authentik/agent.sock", home)
    )
}

#[test]
fn test_agent_default_linux() {
    let home = "/home/jane";
    let data = format!("{}/.local/share", home);
    assert_eq!(
        agent_socket_path(AgentSocketID::Default, None, Some(data)).unwrap().for_platform("linux"),
        format!("{}/.local/share/authentik/agent.sock", home)
    )
}

#[test]
fn agent_socket_override_and_windows_pipes() {
    let p = agent_socket_path(AgentSocketID::Default, Some("/tmp/x.sock".to_string()), None).unwrap();
    assert_eq!(p.for_os(TargetOs::Linux), "/tmp/x.sock");
    assert_eq!(p.for_os(TargetOs::Windows), "/tmp/x.sock");
    let p = agent_socket_path(AgentSocketID::Default, None, Some("/d".to_string())).unwrap();
    assert_eq!(p.for_os(TargetOs::Windows), r"\\.\pipe\authentik\socket");
    let p = agent_socket_path(AgentSocketID::SSH, Some("/ignored".to_string()), Some("/d/".to_string())).unwrap();
    assert_eq!(p.for_os(TargetOs::Linux), "/d/authentik/agent-ssh.sock");
    assert_eq!(p.for_os(TargetOs::Windows), r"\\.\pipe\authentik\socket-ssh");
    assert!(matches!(agent_socket_path(AgentSocketID::SSH, None, None), Err(PathError::NoUserDirectory)));
}

#[test]
fn xdg_paths() {
    assert_eq!(xdg_data_path(Some("/home/u/.local/share".to_string()), "x").unwrap(), "/home/u/.local/share/authentik/x");
    assert_eq!(xdg_config_path(Some("/home/u/.config".to_string()), "c.json").unwrap(), "/home/u/.config/authentik/c.json");
    let err = xdg_data_path(None, "x").unwrap_err();
    assert_eq!(err.to_string(), "Failed to get XDG data path");
    let mut dir = String::new();
    push_path_segment(&mut dir, "a");
    assert_eq!(dir, "a");
}

#[test]
fn sysd_paths_per_platform() {
    assert_eq!(sysd_config_file().for_os(TargetOs::Darwin), "/opt/authentik/config/config.json");
    assert_eq!(sysd_config_file().for_os(TargetOs::Linux), "/etc/authentik/config.json");
    assert_eq!(
        sysd_config_file().for_os(TargetOs::Windows),
        r"C:\Program Files\Authentik Security Inc\sysd\config.json"
    );
    assert_eq!(sysd_state_file().for_os(TargetOs::Linux), "/var/lib/authentik/sysd-state-v2.db");
    assert_eq!(sysd_socket_path(SysdSocketID::CTRL).for_os(TargetOs::Darwin), "/var/run/authentik-sysd-ctrl.sock");
    assert_eq!(sysd_socket_path(SysdSocketID::Default).for_os(TargetOs::Windows), r"\\.\pipe\authentik\sysd");
    assert_eq!(sysd_ctrl_relay_path().for_os(TargetOs::Linux), "/usr/bin/ak-sysd-ctrl-relay");
    assert_eq!(sysd_config_file().for_os(TargetOs::Other), "");
    assert_eq!(DEFAULT_PROFILE, "default");
}

#[test]
fn platform_string_fallbacks() {
    let s = PlatformString::new_with_default("d").with_linux("l");
    assert_eq!(s.for_os(TargetOs::Darwin), "l");
    assert_eq!(s.for_os(TargetOs::Linux), "l");
    assert_eq!(s.for_os(TargetOs::Windows), "d");
    let s = s.with_darwin("m").with_windows("w");
    assert_eq!(s.for_platform("macos"), "m");
    assert_eq!(s.for_platform("windows"), "w");
    assert_eq!(s.for_platform("freebsd"), "d");
    assert_eq!(os_from_name("darwin"), TargetOs::Darwin);
    assert_eq!(os_from_name("linux"), TargetOs::Linux);
    assert_eq!(PlatformString::new().for_os(TargetOs::Linux), "");
}

#[test]
fn config_defaults() {
    let c = Config::default();
    assert!(!c.debug);
    assert_eq!(c.socket_default.for_os(TargetOs::Linux), "/var/run/authentik/sys.sock");
    assert_eq!(c.socket_ctrl.for_os(TargetOs::Windows), r"\\.\pipe\authentik\sysd-ctrl");
    let loaded = Config { debug: true, socket_default: PlatformString::new_with_default("/s"), socket_ctrl: PlatformString::new() };
    let chosen = Config::or_default(Some(loaded));
    assert!(chosen.debug);
    assert_eq!(chosen.socket_default.for_os(TargetOs::Linux), "/s");
    let fallback = Config::or_default(None);
    assert_eq!(fallback.socket_default.for_os(TargetOs::Darwin), "/var/run/authentik-sysd.sock");
    let copy = fallback.clone();
    assert_eq!(copy.socket_ctrl.for_os(TargetOs::Linux), "/var/run/authentik/sys-ctrl.sock");
}
