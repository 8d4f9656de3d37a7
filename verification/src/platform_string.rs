//! A string with a value per operating system: macOS falls back to the Linux
//! (Unix) value, and every platform falls back to the default value.

use vstd::prelude::*;

verus! {

/// The operating systems a [`PlatformString`] distinguishes.
#[derive(Clone, Copy, Debug, PartialEq, Eq, Structural)]
pub enum TargetOs {
    Darwin,
    Linux,
    Windows,
    Other,
}

/// A string with an optional value per operating system and a default.
#[derive(Debug)]
pub struct PlatformString {
    pub darwin: Option<String>,
    pub linux: Option<String>,
    pub windows: Option<String>,
    pub fallback: String,
}

/// The abstract value of a platform string: the three per-OS values and the default.
pub struct PlatformView {
    pub darwin: Option<Seq<char>>,
    pub linux: Option<Seq<char>>,
    pub windows: Option<Seq<char>>,
    pub fallback: Seq<char>,
}

pub open spec fn opt_view(o: Option<String>) -> Option<Seq<char>> {
    match o {
        Some(s) => Some(s@),
        None => None,
    }
}

impl View for PlatformString {
    type V = PlatformView;

    open spec fn view(&self) -> PlatformView {
        PlatformView {
            darwin: opt_view(self.darwin),
            linux: opt_view(self.linux),
            windows: opt_view(self.windows),
            fallback: self.fallback@,
        }
    }
}

impl PlatformView {
    /// The value used on `os`.
    pub open spec fn for_os(self, os: TargetOs) -> Seq<char> {
        match os {
            TargetOs::Darwin => match self.darwin {
                Some(v) => v,
                None => match self.linux {
                    Some(v) => v,
                    None => self.fallback,
                },
            },
            TargetOs::Linux => match self.linux {
                Some(v) => v,
                None => self.fallback,
            },
            TargetOs::Windows => match self.windows {
                Some(v) => v,
                None => self.fallback,
            },
            TargetOs::Other => self.fallback,
        }
    }
}

/// A value set for a platform is the value used there: after `with_darwin(v)`
/// macOS uses `v`, after `with_linux(v)` Linux uses `v` (and so does macOS
/// when it has no value of its own), after `with_windows(v)` Windows uses
/// `v`; setting one platform's value changes no other platform's, except
/// macOS falling back to Linux. A string made with `new_with_default(v)` uses
/// `v` everywhere.
pub proof fn lemma_value_used_where_set(p: PlatformView, v: Seq<char>, os: TargetOs)
    ensures
        (PlatformView { darwin: Some(v), ..p }).for_os(TargetOs::Darwin) == v,
        (PlatformView { linux: Some(v), ..p }).for_os(TargetOs::Linux) == v,
        p.darwin is None ==> (PlatformView { linux: Some(v), ..p }).for_os(TargetOs::Darwin) == v,
        (PlatformView { windows: Some(v), ..p }).for_os(TargetOs::Windows) == v,
        os != TargetOs::Darwin ==> (PlatformView { darwin: Some(v), ..p }).for_os(os) == p.for_os(os),
        os != TargetOs::Linux && (os != TargetOs::Darwin || p.darwin is Some) ==> (PlatformView {
            linux: Some(v),
            ..p
        }).for_os(os) == p.for_os(os),
        os != TargetOs::Windows ==> (PlatformView { windows: Some(v), ..p }).for_os(os) == p.for_os(os),
        (PlatformView { darwin: None, linux: None, windows: None, fallback: v }).for_os(os) == v,
{
}

/// The operating system a platform name (`std::env::consts::OS` style) stands for.
pub open spec fn os_named(name: Seq<char>) -> TargetOs {
    if name == "macos"@ || name == "darwin"@ {
        TargetOs::Darwin
    } else if name == "linux"@ {
        TargetOs::Linux
    } else if name == "windows"@ {
        TargetOs::Windows
    } else {
        TargetOs::Other
    }
}

/// Reads the operating system a platform name stands for.
pub fn os_from_name(name: &str) -> (r: TargetOs)
    ensures
        r == os_named(name@),
{
    let n = String::from_str(name);
    if n == String::from_str("macos") || n == String::from_str("darwin") {
        TargetOs::Darwin
    } else if n == String::from_str("linux") {
        TargetOs::Linux
    } else if n == String::from_str("windows") {
        TargetOs::Windows
    } else {
        TargetOs::Other
    }
}

fn clone_opt(o: &Option<String>) -> (r: Option<String>)
    ensures
        opt_view(r) == opt_view(*o),
{
    match o {
        Some(s) => Some(s.clone()),
        None => None,
    }
}

impl PlatformString {
    /// A platform string with no values and an empty default.
    pub fn new() -> (r: Self)
        ensures
            r@ == (PlatformView {
                darwin: None,
                linux: None,
                windows: None,
                fallback: Seq::<char>::empty(),
            }),
    {
        PlatformString { darwin: None, linux: None, windows: None, fallback: String::new() }
    }

    /// A platform string whose every platform uses `value`.
    pub fn new_with_default(value: &str) -> (r: Self)
        ensures
            r@ == (PlatformView { darwin: None, linux: None, windows: None, fallback: value@ }),
    {
        PlatformString { darwin: None, linux: None, windows: None, fallback: String::from_str(value) }
    }

    /// Sets the macOS value.
    pub fn with_darwin(self, value: &str) -> (r: Self)
        ensures
            r@ == (PlatformView { darwin: Some(value@), ..self@ }),
    {
        PlatformString { darwin: Some(String::from_str(value)), ..self }
    }

    /// Sets the Linux (and Unix) value.
    pub fn with_linux(self, value: &str) -> (r: Self)
        ensures
            r@ == (PlatformView { linux: Some(value@), ..self@ }),
    {
        PlatformString { linux: Some(String::from_str(value)), ..self }
    }

    /// Sets the Windows value.
    pub fn with_windows(self, value: &str) -> (r: Self)
        ensures
            r@ == (PlatformView { windows: Some(value@), ..self@ }),
    {
        PlatformString { windows: Some(String::from_str(value)), ..self }
    }

    /// The value used on `os`.
    pub fn for_os(&self, os: TargetOs) -> (r: String)
        ensures
            r@ == self@.for_os(os),
    {
        let chosen = match os {
            TargetOs::Darwin => match &self.darwin {
                Some(v) => Some(v),
                None => self.linux.as_ref(),
            },
            TargetOs::Linux => self.linux.as_ref(),
            TargetOs::Windows => self.windows.as_ref(),
            TargetOs::Other => None,
        };
        match chosen {
            Some(v) => v.clone(),
            None => self.fallback.clone(),
        }
    }

    /// The value used on the platform named `name` (`"macos"`, `"linux"`, ...).
    pub fn for_platform(&self, name: &str) -> (r: String)
        ensures
            r@ == self@.for_os(os_named(name@)),
    {
        self.for_os(os_from_name(name))
    }
}

impl Clone for PlatformString {
    fn clone(&self) -> (r: Self)
        ensures
            r@ == self@,
    {
        PlatformString {
            darwin: clone_opt(&self.darwin),
            linux: clone_opt(&self.linux),
            windows: clone_opt(&self.windows),
            fallback: self.fallback.clone(),
        }
    }
}

} // verus!
