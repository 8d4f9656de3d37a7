//! Hardware-backed signing keys (Secure Enclave, TPM, OS keyring): how their
//! failures are reported, and when a key is generated rather than opened.
//! The enclave itself is driven by the caller.

use vstd::prelude::*;

verus! {

/// Why a hardware key operation failed.
#[derive(Debug)]
pub enum HardwareKeyError {
    /// No usable Secure Enclave, TPM or keyring backend exists on this device.
    NotAvailable,
    /// Anything else; the text describes it.
    Other(String),
}

impl HardwareKeyError {
    /// The message of the error.
    pub open spec fn describe(&self) -> Seq<char> {
        match self {
            HardwareKeyError::NotAvailable => "hardware key storage not available"@,
            HardwareKeyError::Other(m) => m@,
        }
    }

    /// The message of the error.
    pub fn to_string(&self) -> (r: String)
        ensures
            r@ == self.describe(),
    {
        match self {
            HardwareKeyError::NotAvailable => String::from_str("hardware key storage not available"),
            HardwareKeyError::Other(m) => m.clone(),
        }
    }
}

/// How a call into the enclave failed.
#[derive(Debug)]
pub enum EnclaveFailure {
    /// The device has no usable backend.
    NotAvailable,
    /// No key exists under the label; the text describes the error.
    KeyNotFound(String),
    /// Anything else; the text describes it.
    Other(String),
}

/// The error an enclave failure is reported as: a missing backend as
/// `NotAvailable`, anything else with its text.
pub fn hardware_error(f: EnclaveFailure) -> (r: HardwareKeyError)
    ensures
        match f {
            EnclaveFailure::NotAvailable => r is NotAvailable,
            EnclaveFailure::KeyNotFound(m) => r matches HardwareKeyError::Other(t) && t@ == m@,
            EnclaveFailure::Other(m) => r matches HardwareKeyError::Other(t) && t@ == m@,
        },
{
    match f {
        EnclaveFailure::NotAvailable => HardwareKeyError::NotAvailable,
        EnclaveFailure::KeyNotFound(m) => HardwareKeyError::Other(m),
        EnclaveFailure::Other(m) => HardwareKeyError::Other(m),
    }
}

/// What to do once the public key of the label has been looked up.
#[derive(Debug)]
pub enum KeyAction {
    /// The key exists: use it.
    Open,
    /// No key exists: generate one, with no user-presence policy, so that
    /// background renewals can sign unattended.
    Generate,
    /// The lookup failed otherwise: report the error.
    Fail(HardwareKeyError),
}

/// The action after looking up the key: open an existing key, generate a
/// missing one, and report any other failure.
pub fn open_or_generate_step(lookup: Result<(), EnclaveFailure>) -> (r: KeyAction)
    ensures
        lookup is Ok ==> r is Open,
        lookup matches Err(EnclaveFailure::KeyNotFound(_)) ==> r is Generate,
        lookup matches Err(EnclaveFailure::NotAvailable) ==> (r matches KeyAction::Fail(e) && e is NotAvailable),
        lookup matches Err(EnclaveFailure::Other(m)) ==> (r matches KeyAction::Fail(HardwareKeyError::Other(t)) && t@ == m@),
{
    match lookup {
        Ok(()) => KeyAction::Open,
        Err(EnclaveFailure::KeyNotFound(_)) => KeyAction::Generate,
        Err(f) => KeyAction::Fail(hardware_error(f)),
    }
}

} // verus!
