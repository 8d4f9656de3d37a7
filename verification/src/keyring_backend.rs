//! The decisions the platform credential stores make around their system
//! calls: which entry options to ask for, and how each backend's failures are
//! reported as [`KeyringError`]s. The system calls themselves are made by the
//! caller, which hands their outcome in here.

use vstd::prelude::*;
use crate::keyring::{Accessibility, KeyringError};
use crate::platform_string::TargetOs;
use crate::text::utf8_string;

verus! {

/// The access group every agent keychain item belongs to on macOS.
pub const MACOS_KEYCHAIN_GROUP: &'static str = "group.232G855Y8N.io.goauthentik.platform.shared";

/// The keychain status code for a missing item (`errSecItemNotFound`).
pub const ERR_SEC_ITEM_NOT_FOUND: i32 = -25300;

/// The D-Bus error a session bus answers with when no Secret Service is registered.
pub const DBUS_SERVICE_UNKNOWN: &'static str = "org.freedesktop.DBus.Error.ServiceUnknown";

/// Credential Manager persistence that roams with the user profile on a domain.
pub const PERSIST_ENTERPRISE: &'static str = "Enterprise";

/// Credential Manager persistence that keeps the credential on this machine.
pub const PERSIST_LOCAL_MACHINE: &'static str = "Local";

/// The entry options asked of the system keyring for an entry with `access`,
/// as name/value pairs.
pub open spec fn modifiers_for(os: TargetOs, access: Accessibility) -> Seq<(Seq<char>, Seq<char>)> {
    if os == TargetOs::Darwin && access == Accessibility::User {
        seq![("access-policy"@, "after-first-unlock"@)]
    } else {
        Seq::empty()
    }
}

pub open spec fn pairs_of(v: Seq<(String, String)>) -> Seq<(Seq<char>, Seq<char>)> {
    v.map_values(|p: (String, String)| (p.0@, p.1@))
}

/// The entry options for an entry of `service` and `user` with `access` on
/// `os`: on macOS an entry the logged-in user needs stays readable after the
/// first unlock; elsewhere, and for entries needed at any time, none.
pub fn entry_modifies(service: &str, user: &str, access: Accessibility, os: TargetOs) -> (r: Vec<(String, String)>)
    ensures
        pairs_of(r@) == modifiers_for(os, access),
{
    let mut mods: Vec<(String, String)> = Vec::new();
    if os == TargetOs::Darwin && access == Accessibility::User {
        mods.push((String::from_str("access-policy"), String::from_str("after-first-unlock")));
        proof {
            reveal_strlit("access-policy");
            reveal_strlit("after-first-unlock");
            assert(pairs_of(mods@) =~= modifiers_for(os, access));
        }
    } else {
        assert(pairs_of(mods@) =~= modifiers_for(os, access));
    }
    mods
}

/// The keychain accessibility class asked for on macOS.
#[derive(Clone, Copy, Debug, PartialEq, Eq, Structural)]
pub enum KeychainAccessible {
    /// `kSecAttrAccessibleAfterFirstUnlock`.
    AfterFirstUnlock,
    /// `kSecAttrAccessibleWhenUnlocked`.
    WhenUnlocked,
}

/// The keychain accessibility class of an entry with `access`: an entry the
/// logged-in user needs stays readable after the first unlock, any other only
/// while the keychain is unlocked.
pub fn keychain_accessible(access: Accessibility) -> (r: KeychainAccessible)
    ensures
        r == (match access {
            Accessibility::User => KeychainAccessible::AfterFirstUnlock,
            Accessibility::Always => KeychainAccessible::WhenUnlocked,
        }),
{
    match access {
        Accessibility::User => KeychainAccessible::AfterFirstUnlock,
        Accessibility::Always => KeychainAccessible::WhenUnlocked,
    }
}

/// How a call into a credential backend failed.
#[derive(Debug)]
pub enum BackendFailure {
    /// There is no entry for the key.
    NoEntry,
    /// The backend cannot be reached at all.
    NoStorage,
    /// Anything else; the text describes it.
    Other(String),
}

/// The error a backend failure is reported as.
pub open spec fn reported(f: BackendFailure) -> KeyringError {
    match f {
        BackendFailure::NoEntry => KeyringError::NotFound(),
        BackendFailure::NoStorage => KeyringError::NotAvailable(),
        BackendFailure::Other(m) => KeyringError::Other(m),
    }
}

/// The error a backend failure is reported as: a missing entry as `NotFound`,
/// an unreachable backend as `NotAvailable`, anything else with its text.
pub fn backend_error(f: BackendFailure) -> (r: KeyringError)
    ensures
        r == reported(f),
{
    match f {
        BackendFailure::NoEntry => KeyringError::NotFound(),
        BackendFailure::NoStorage => KeyringError::NotAvailable(),
        BackendFailure::Other(m) => KeyringError::Other(m),
    }
}

/// The result of reading an entry: the secret, or the failure as reported.
pub fn read_outcome(outcome: Result<String, BackendFailure>) -> (r: Result<String, KeyringError>)
    ensures
        match outcome {
            Ok(s) => r matches Ok(v) && v@ == s@,
            Err(f) => r == Err::<String, KeyringError>(reported(f)),
        },
{
    match outcome {
        Ok(s) => Ok(s),
        Err(f) => Err(backend_error(f)),
    }
}

/// The result of writing an entry: done, or the failure as reported.
pub fn write_outcome(outcome: Result<(), BackendFailure>) -> (r: Result<(), KeyringError>)
    ensures
        match outcome {
            Ok(()) => r is Ok,
            Err(f) => r == Err::<(), KeyringError>(reported(f)),
        },
{
    match outcome {
        Ok(()) => Ok(()),
        Err(f) => Err(backend_error(f)),
    }
}

/// The result of deleting an entry: deleting an entry that does not exist
/// succeeds; other failures are reported.
pub fn delete_outcome(outcome: Result<(), BackendFailure>) -> (r: Result<(), KeyringError>)
    ensures
        match outcome {
            Ok(()) => r is Ok,
            Err(BackendFailure::NoEntry) => r is Ok,
            Err(f) => r == Err::<(), KeyringError>(reported(f)),
        },
{
    match outcome {
        Ok(()) => Ok(()),
        Err(BackendFailure::NoEntry) => Ok(()),
        Err(f) => Err(backend_error(f)),
    }
}

/// The backend failure of a keychain call that returned `code`: a missing
/// item is `NoEntry`, any other status an `Other` failure with `description`.
pub fn keychain_status(code: i32, description: String) -> (r: BackendFailure)
    ensures
        code == ERR_SEC_ITEM_NOT_FOUND ==> r is NoEntry,
        code != ERR_SEC_ITEM_NOT_FOUND ==> (r matches BackendFailure::Other(m) && m@ == description@),
{
    if code == ERR_SEC_ITEM_NOT_FOUND {
        BackendFailure::NoEntry
    } else {
        BackendFailure::Other(description)
    }
}

/// How a call to the Secret Service failed on Linux.
#[derive(Debug)]
pub enum SecretServiceFailure {
    /// No Secret Service provider could be found.
    Unavailable,
    /// The bus answered a method call with the named error.
    MethodError(String, String),
    /// The bus connection failed; the flag says whether the bus socket was missing.
    Connection(bool, String),
    /// Anything else; the text describes it.
    Other(String),
}

/// The backend failure a Secret Service failure is reported as: the service
/// is unreachable when no provider exists, when the bus knows no Secret
/// Service, or when the bus socket is missing.
pub fn secret_service_failure(f: SecretServiceFailure) -> (r: BackendFailure)
    ensures
        match f {
            SecretServiceFailure::Unavailable => r is NoStorage,
            SecretServiceFailure::MethodError(name, m) => if name@ == DBUS_SERVICE_UNKNOWN@ {
                r is NoStorage
            } else {
                r matches BackendFailure::Other(t) && t@ == m@
            },
            SecretServiceFailure::Connection(missing, m) => if missing {
                r is NoStorage
            } else {
                r matches BackendFailure::Other(t) && t@ == m@
            },
            SecretServiceFailure::Other(m) => r matches BackendFailure::Other(t) && t@ == m@,
        },
{
    match f {
        SecretServiceFailure::Unavailable => BackendFailure::NoStorage,
        SecretServiceFailure::MethodError(name, m) => {
            if name == String::from_str(DBUS_SERVICE_UNKNOWN) {
                BackendFailure::NoStorage
            } else {
                BackendFailure::Other(m)
            }
        },
        SecretServiceFailure::Connection(missing, m) => {
            if missing {
                BackendFailure::NoStorage
            } else {
                BackendFailure::Other(m)
            }
        },
        SecretServiceFailure::Other(m) => BackendFailure::Other(m),
    }
}

/// Which Secret Service item a read takes among those matching the key.
#[derive(Clone, Copy, Debug, PartialEq, Eq, Structural)]
pub enum ItemChoice {
    /// The first unlocked item.
    Unlocked,
    /// The first locked item, once unlocked.
    Locked,
    /// None: there is no entry.
    Missing,
}

/// The item a read takes: an unlocked one when there is any, else a locked
/// one, else none.
pub fn choose_item(unlocked: usize, locked: usize) -> (r: ItemChoice)
    ensures
        r == (if unlocked > 0 {
            ItemChoice::Unlocked
        } else if locked > 0 {
            ItemChoice::Locked
        } else {
            ItemChoice::Missing
        }),
{
    if unlocked > 0 {
        ItemChoice::Unlocked
    } else if locked > 0 {
        ItemChoice::Locked
    } else {
        ItemChoice::Missing
    }
}

/// The secret stored as `bytes`: its text when the bytes are valid UTF-8,
/// else an `Other` failure.
pub fn secret_text(bytes: Vec<u8>) -> (r: Result<String, KeyringError>)
    ensures
        r is Ok <==> vstd::utf8::valid_utf8(bytes@),
        r matches Ok(s) ==> s@ == vstd::utf8::decode_utf8(bytes@),
        r matches Err(e) ==> e.describe() == "stored secret is not valid UTF-8"@,
{
    match utf8_string(bytes) {
        Some(s) => Ok(s),
        None => Err(KeyringError::Other(String::from_str("stored secret is not valid UTF-8"))),
    }
}

} // verus!
