//! The system daemon's configuration, as read from its configuration file.

use vstd::prelude::*;
use crate::paths::{lemma_sysd_sockets_distinct, sysd_socket_path, sysd_socket_view, three_way, SysdSocketID};
use crate::platform_string::{PlatformString, PlatformView, TargetOs};

verus! {

/// Where the configuration is read from on Linux.
pub const DEFAULT_CONFIG_PATH: &'static str = "/etc/authentik/config.json";

/// The daemon configuration: debug mode and the two sockets it listens on.
#[derive(Debug)]
pub struct Config {
    pub debug: bool,
    pub socket_default: PlatformString,
    pub socket_ctrl: PlatformString,
}

/// The configuration used when none could be read.
pub open spec fn default_config_view() -> (bool, PlatformView, PlatformView) {
    (
        false,
        three_way(
            "/var/run/authentik-sysd.sock"@,
            "/var/run/authentik/sys.sock"@,
            "\\\\.\\pipe\\authentik\\sysd"@,
        ),
        three_way(
            "/var/run/authentik-sysd-ctrl.sock"@,
            "/var/run/authentik/sys-ctrl.sock"@,
            "\\\\.\\pipe\\authentik\\sysd-ctrl"@,
        ),
    )
}

impl View for Config {
    type V = (bool, PlatformView, PlatformView);

    open spec fn view(&self) -> (bool, PlatformView, PlatformView) {
        (self.debug, self.socket_default@, self.socket_ctrl@)
    }
}

impl Default for Config {
    fn default() -> (r: Self)
        ensures
            r@ == default_config_view(),
            !r.debug,
            r@.1 == sysd_socket_view(SysdSocketID::Default),
            r@.2 == sysd_socket_view(SysdSocketID::CTRL),
    {
        Config {
            debug: false,
            socket_default: sysd_socket_path(SysdSocketID::Default),
            socket_ctrl: sysd_socket_path(SysdSocketID::CTRL),
        }
    }
}

impl Clone for Config {
    fn clone(&self) -> (r: Self)
        ensures
            r@ == self@,
    {
        Config {
            debug: self.debug,
            socket_default: self.socket_default.clone(),
            socket_ctrl: self.socket_ctrl.clone(),
        }
    }
}

impl Config {
    /// The configuration in effect: the one read from the configuration file,
    /// or the defaults when it could not be read.
    pub fn or_default(loaded: Option<Config>) -> (r: Config)
        ensures
            match loaded {
                Some(c) => r@ == c@,
                None => r@ == default_config_view(),
            },
            loaded is None ==> r@.1 == sysd_socket_view(SysdSocketID::Default) && r@.2 == sysd_socket_view(
                SysdSocketID::CTRL,
            ),
    {
        match loaded {
            Some(c) => c,
            None => Config::default(),
        }
    }
}

/// Without a configuration file the daemon listens on its own two sockets:
/// the default configuration's sockets are the daemon's default and CTRL
/// socket paths, which differ on every platform it runs on.
pub proof fn lemma_default_config_sockets(os: TargetOs)
    requires
        os != TargetOs::Other,
    ensures
        !default_config_view().0,
        default_config_view().1 == sysd_socket_view(SysdSocketID::Default),
        default_config_view().2 == sysd_socket_view(SysdSocketID::CTRL),
        default_config_view().1.for_os(os) != default_config_view().2.for_os(os),
{
    lemma_sysd_sockets_distinct(os);
}

} // verus!
