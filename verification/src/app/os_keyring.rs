//! The decisions around the session entry of the operating system's keyring.
use vstd::prelude::*;
use crate::error::WayclipError;

verus! {

/// How deleting the keyring entry failed.
#[derive(Debug, Clone)]
pub enum KeyringFailure {
    /// There was no entry to delete
    NoEntry,
    /// Any other failure, with the keyring's message
    Other(String),
}

/// The service of the keyring entry that holds the session.
pub const SERVICE: &'static str = "com.wayclip.cli";

/// The user of the keyring entry that holds the session.
pub const USERNAME: &'static str = "session";

/// The actions on the keyring entry that holds the session (the keyring itself is reached by
/// the caller).
pub struct OsKeyring;

impl OsKeyring {
    /// What a stored password holds: nothing when it is empty, else the stored text.
    pub fn stored_payload(password: String) -> (r: Option<String>)
        ensures
            password@.len() == 0 <==> r is None,
            r matches Some(p) ==> p@ == password@,
    {
        if password.as_str().unicode_len() == 0 {
            None
        } else {
            Some(password)
        }
    }

    /// The outcome of deleting the entry: an entry that is not there counts as cleared, so
    /// clearing can be repeated; any other failure is a `Keyring` error with its message.
    pub fn clear_outcome(failure: Option<KeyringFailure>) -> (r: Result<(), WayclipError>)
        ensures
            match failure {
                None => r is Ok,
                Some(KeyringFailure::NoEntry) => r is Ok,
                Some(KeyringFailure::Other(m)) => r matches Err(WayclipError::Keyring(x)) && x@ == m@,
            },
    {
        match failure {
            None => Ok(()),
            Some(KeyringFailure::NoEntry) => Ok(()),
            Some(KeyringFailure::Other(m)) => Err(WayclipError::Keyring(m)),
        }
    }
}

} // verus!
