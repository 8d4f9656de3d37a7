//! Where the system daemon, the agent and the packaged helpers live on each
//! platform.

use vstd::prelude::*;
use crate::platform_string::{PlatformString, PlatformView, TargetOs};

verus! {

pub const DEFAULT_PROFILE: &'static str = "default";

/// Mach service name the macOS CTRL relay daemon advertises, and the label of
/// the LaunchDaemon plist that declares it.
pub const SYSD_CTRL_RELAY_MACH_SERVICE: &'static str = "io.goauthentik.platform.sysd-ctrl-relay";

/// The sockets of the system daemon.
#[derive(Clone, Copy, Debug, PartialEq, Eq, Structural)]
pub enum SysdSocketID {
    Default,
    CTRL,
}

/// The sockets of the per-user agent.
#[derive(Clone, Copy, Debug, PartialEq, Eq, Structural)]
pub enum AgentSocketID {
    Default,
    SSH,
}

/// A platform view with all three per-OS values and an empty default.
pub open spec fn three_way(darwin: Seq<char>, linux: Seq<char>, windows: Seq<char>) -> PlatformView {
    PlatformView { darwin: Some(darwin), linux: Some(linux), windows: Some(windows), fallback: Seq::empty() }
}

/// The configuration file of the system daemon.
pub fn sysd_config_file() -> (r: PlatformString)
    ensures
        r@ == three_way(
            "/opt/authentik/config/config.json"@,
            "/etc/authentik/config.json"@,
            "C:\\Program Files\\Authentik Security Inc\\sysd\\config.json"@,
        ),
{
    PlatformString::new().with_darwin("/opt/authentik/config/config.json").with_linux(
        "/etc/authentik/config.json",
    ).with_windows("C:\\Program Files\\Authentik Security Inc\\sysd\\config.json")
}

/// The state database of the system daemon.
pub fn sysd_state_file() -> (r: PlatformString)
    ensures
        r@ == three_way(
            "/opt/authentik/sysd-state-v2.db"@,
            "/var/lib/authentik/sysd-state-v2.db"@,
            "C:\\ProgramData\\Authentik Security Inc\\sysd-state-v2.db"@,
        ),
{
    PlatformString::new().with_darwin("/opt/authentik/sysd-state-v2.db").with_linux(
        "/var/lib/authentik/sysd-state-v2.db",
    ).with_windows("C:\\ProgramData\\Authentik Security Inc\\sysd-state-v2.db")
}

/// The socket the system daemon listens on for `id`, per platform.
pub open spec fn sysd_socket_view(id: SysdSocketID) -> PlatformView {
    match id {
        SysdSocketID::Default => three_way(
            "/var/run/authentik-sysd.sock"@,
            "/var/run/authentik/sys.sock"@,
            "\\\\.\\pipe\\authentik\\sysd"@,
        ),
        SysdSocketID::CTRL => three_way(
            "/var/run/authentik-sysd-ctrl.sock"@,
            "/var/run/authentik/sys-ctrl.sock"@,
            "\\\\.\\pipe\\authentik\\sysd-ctrl"@,
        ),
    }
}

/// The daemon's two sockets are distinct on every platform it runs on: the
/// CTRL socket never takes the default socket's path.
pub proof fn lemma_sysd_sockets_distinct(os: TargetOs)
    requires
        os != TargetOs::Other,
    ensures
        sysd_socket_view(SysdSocketID::Default).for_os(os) != sysd_socket_view(SysdSocketID::CTRL).for_os(os),
{
    reveal_strlit("/var/run/authentik-sysd.sock");
    reveal_strlit("/var/run/authentik/sys.sock");
    reveal_strlit("\\\\.\\pipe\\authentik\\sysd");
    reveal_strlit("/var/run/authentik-sysd-ctrl.sock");
    reveal_strlit("/var/run/authentik/sys-ctrl.sock");
    reveal_strlit("\\\\.\\pipe\\authentik\\sysd-ctrl");
    let d = sysd_socket_view(SysdSocketID::Default).for_os(os);
    let c = sysd_socket_view(SysdSocketID::CTRL).for_os(os);
    assert(c.len() == d.len() + 5);
}

/// The socket the system daemon listens on for `id`.
pub fn sysd_socket_path(id: SysdSocketID) -> (r: PlatformString)
    ensures
        r@ == sysd_socket_view(id),
        id == SysdSocketID::CTRL ==> r@ == three_way(
            "/var/run/authentik-sysd-ctrl.sock"@,
            "/var/run/authentik/sys-ctrl.sock"@,
            "\\\\.\\pipe\\authentik\\sysd-ctrl"@,
        ),
        id == SysdSocketID::Default ==> r@ == three_way(
            "/var/run/authentik-sysd.sock"@,
            "/var/run/authentik/sys.sock"@,
            "\\\\.\\pipe\\authentik\\sysd"@,
        ),
{
    match id {
        SysdSocketID::CTRL => PlatformString::new().with_windows("\\\\.\\pipe\\authentik\\sysd-ctrl").with_darwin(
            "/var/run/authentik-sysd-ctrl.sock",
        ).with_linux("/var/run/authentik/sys-ctrl.sock"),
        SysdSocketID::Default => PlatformString::new().with_windows("\\\\.\\pipe\\authentik\\sysd").with_darwin(
            "/var/run/authentik-sysd.sock",
        ).with_linux("/var/run/authentik/sys.sock"),
    }
}

/// Where packaging installs the elevated CTRL relay helper.
pub fn sysd_ctrl_relay_path() -> (r: PlatformString)
    ensures
        r@ == three_way(
            "/Applications/authentik Agent.app/Contents/MacOS/ak-sysd-ctrl-relay"@,
            "/usr/bin/ak-sysd-ctrl-relay"@,
            "C:\\Program Files\\Authentik Security Inc\\sysd\\ak-sysd-ctrl-relay.exe"@,
        ),
{
    PlatformString::new().with_darwin(
        "/Applications/authentik Agent.app/Contents/MacOS/ak-sysd-ctrl-relay",
    ).with_linux("/usr/bin/ak-sysd-ctrl-relay").with_windows(
        "C:\\Program Files\\Authentik Security Inc\\sysd\\ak-sysd-ctrl-relay.exe",
    )
}

/// `dir` with the relative segment `seg` appended, as `PathBuf::push` does on
/// Unix: a separator is added unless `dir` is empty or already ends in one.
pub open spec fn push_segment(dir: Seq<char>, seg: Seq<char>) -> Seq<char> {
    if dir.len() == 0 {
        seg
    } else if dir.last() == '/' {
        dir + seg
    } else {
        dir + seq!['/'] + seg
    }
}

/// Appends the relative segment `seg` to the path `dir`.
pub fn push_path_segment(dir: &mut String, seg: &str)
    ensures
        final(dir)@ == push_segment(old(dir)@, seg@),
{
    let cs = crate::text::chars_of(dir.as_str());
    if cs.len() > 0 && cs[cs.len() - 1] != '/' {
        proof {
            reveal_strlit("/");
        }
        dir.append("/");
    }
    dir.append(seg);
}

/// Why a per-user path could not be worked out.
#[derive(Debug, PartialEq, Eq, Structural)]
pub enum PathError {
    /// The platform has no data (or configuration) directory for the user.
    NoUserDirectory,
}

impl PathError {
    pub fn to_string(&self) -> (r: String)
        ensures
            r@ == "Failed to get XDG data path"@,
    {
        String::from_str("Failed to get XDG data path")
    }
}

/// `<base>/authentik/<last_seg>`, or an error when there is no base directory.
pub open spec fn authentik_path(base: Option<String>, last_seg: Seq<char>) -> Result<Seq<char>, PathError> {
    match base {
        Some(b) => Ok(push_segment(push_segment(b@, "authentik"@), last_seg)),
        None => Err(PathError::NoUserDirectory),
    }
}

fn authentik_path_in(base: Option<String>, last_seg: &str) -> (r: Result<String, PathError>)
    ensures
        match authentik_path(base, last_seg@) {
            Ok(p) => r is Ok && r->Ok_0@ == p,
            Err(e) => r == Err::<String, PathError>(e),
        },
{
    let mut data = match base {
        Some(d) => d,
        None => return Err(PathError::NoUserDirectory),
    };
    push_path_segment(&mut data, "authentik");
    push_path_segment(&mut data, last_seg);
    Ok(data)
}

/// The per-user data path `<data_dir>/authentik/<last_seg>`, given the
/// platform's data directory.
pub fn xdg_data_path(data_dir: Option<String>, last_seg: &str) -> (r: Result<String, PathError>)
    ensures
        match authentik_path(data_dir, last_seg@) {
            Ok(p) => r is Ok && r->Ok_0@ == p,
            Err(e) => r == Err::<String, PathError>(e),
        },
{
    authentik_path_in(data_dir, last_seg)
}

/// The per-user configuration path `<config_dir>/authentik/<last_seg>`, given
/// the platform's configuration directory.
pub fn xdg_config_path(config_dir: Option<String>, last_seg: &str) -> (r: Result<String, PathError>)
    ensures
        match authentik_path(config_dir, last_seg@) {
            Ok(p) => r is Ok && r->Ok_0@ == p,
            Err(e) => r == Err::<String, PathError>(e),
        },
{
    authentik_path_in(config_dir, last_seg)
}

/// The agent socket for `id`, given the `AUTHENTIK_CLI_SOCKET` override and the
/// platform's data directory. The override applies to the default socket on
/// every platform; the Unix socket lives in the user's data directory.
pub open spec fn agent_socket_view(id: AgentSocketID, cli_socket: Option<String>, data_dir: Option<String>) -> Result<PlatformView, PathError> {
    match id {
        AgentSocketID::Default => match cli_socket {
            Some(x) => Ok(PlatformView { darwin: None, linux: None, windows: None, fallback: x@ }),
            None => match authentik_path(data_dir, "agent.sock"@) {
                Ok(p) => Ok(PlatformView {
                    darwin: None,
                    linux: Some(p),
                    windows: Some("\\\\.\\pipe\\authentik\\socket"@),
                    fallback: Seq::empty(),
                }),
                Err(e) => Err(e),
            },
        },
        AgentSocketID::SSH => match authentik_path(data_dir, "agent-ssh.sock"@) {
            Ok(p) => Ok(PlatformView {
                darwin: None,
                linux: Some(p),
                windows: Some("\\\\.\\pipe\\authentik\\socket-ssh"@),
                fallback: Seq::empty(),
            }),
            Err(e) => Err(e),
        },
    }
}

/// The socket the agent listens on for `id`.
pub fn agent_socket_path(id: AgentSocketID, cli_socket: Option<String>, data_dir: Option<String>) -> (r:
    Result<PlatformString, PathError>)
    ensures
        match agent_socket_view(id, cli_socket, data_dir) {
            Ok(v) => r is Ok && r->Ok_0@ == v,
            Err(e) => r == Err::<PlatformString, PathError>(e),
        },
{
    match id {
        AgentSocketID::Default => {
            if let Some(x) = cli_socket {
                return Ok(PlatformString::new_with_default(x.as_str()));
            }
            let p = xdg_data_path(data_dir, "agent.sock")?;
            Ok(PlatformString::new().with_windows("\\\\.\\pipe\\authentik\\socket").with_linux(p.as_str()))
        },
        AgentSocketID::SSH => {
            let p = xdg_data_path(data_dir, "agent-ssh.sock")?;
            Ok(
                PlatformString::new().with_windows("\\\\.\\pipe\\authentik\\socket-ssh").with_linux(
                    p.as_str(),
                ),
            )
        },
    }
}

} // verus!
