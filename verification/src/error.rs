//! The library's error type.
use vstd::prelude::*;

verus! {

/// Why a string could not be read as an unsigned integer (the kinds of `ParseIntError`
/// that unsigned parsing produces).
#[derive(Debug, Clone, Copy, PartialEq, Eq, Structural)]
pub enum IntErrorKind {
    /// The string was empty.
    Empty,
    /// A character other than an ASCII digit was found (or a lone sign).
    InvalidDigit,
    /// The number does not fit in the target type.
    PosOverflow,
}

/// All the errors that the library reports.
///
/// The message-carrying variants mirror the categories of the Wayclip tools; the parse variants
/// stand for the standard library's parse errors.
#[derive(Debug, Clone)]
pub enum WayclipError {
    /// An ambiguous 'ring' error
    Ring(String),
    /// An ambiguous 'remux' error
    Remux(String),
    /// An ambiguous 'tray' error
    Tray(String),
    /// An ambiguous 'pipewire' error
    Pipewire(String),
    /// An ambiguous 'discovery' error
    Discovery(String),
    /// An ambiguous 'audio' error
    Audio(String),
    /// An ambiguous 'screencast' error
    Screencast(String),
    /// An ambiguous 'video' error
    Video(String),
    /// An ambiguous 'watcher' error
    Watcher(String),
    /// An ambiguous 'fatal' error
    Fatal(String),
    /// A general 'CLI' error
    CLI(String),
    /// A general 'config' error
    Config(String),
    /// A general 'API' error
    Api(String),
    /// A general 'Validation' error
    Validation(String),
    /// A general 'NotFound' error
    NotFound(String),
    /// An integer could not be parsed
    ParseInt(IntErrorKind),
    /// A boolean could not be parsed (only `true` and `false` are booleans)
    ParseBool,
    /// A regular expression did not compile; the message of the regex engine
    Regex(String),
    /// A URL could not be parsed; the message of the URL parser
    Url(String),
    /// The keyring failed; the keyring's message
    Keyring(String),
}

/// The category of an error, without its message.
#[derive(Debug, Clone, Copy, PartialEq, Eq, Structural)]
pub enum ErrorClass {
    Ring,
    Remux,
    Tray,
    Pipewire,
    Discovery,
    Audio,
    Screencast,
    Video,
    Watcher,
    Fatal,
    CLI,
    Config,
    Api,
    Validation,
    NotFound,
    ParseInt(IntErrorKind),
    ParseBool,
    Regex,
    Url,
    Keyring,
}

pub open spec fn class_of(e: WayclipError) -> ErrorClass {
    match e {
        WayclipError::Ring(_) => ErrorClass::Ring,
        WayclipError::Remux(_) => ErrorClass::Remux,
        WayclipError::Tray(_) => ErrorClass::Tray,
        WayclipError::Pipewire(_) => ErrorClass::Pipewire,
        WayclipError::Discovery(_) => ErrorClass::Discovery,
        WayclipError::Audio(_) => ErrorClass::Audio,
        WayclipError::Screencast(_) => ErrorClass::Screencast,
        WayclipError::Video(_) => ErrorClass::Video,
        WayclipError::Watcher(_) => ErrorClass::Watcher,
        WayclipError::Fatal(_) => ErrorClass::Fatal,
        WayclipError::CLI(_) => ErrorClass::CLI,
        WayclipError::Config(_) => ErrorClass::Config,
        WayclipError::Api(_) => ErrorClass::Api,
        WayclipError::Validation(_) => ErrorClass::Validation,
        WayclipError::NotFound(_) => ErrorClass::NotFound,
        WayclipError::ParseInt(k) => ErrorClass::ParseInt(k),
        WayclipError::ParseBool => ErrorClass::ParseBool,
        WayclipError::Regex(_) => ErrorClass::Regex,
        WayclipError::Url(_) => ErrorClass::Url,
        WayclipError::Keyring(_) => ErrorClass::Keyring,
    }
}

/// A result with its error reduced to the error's category.
pub open spec fn outcome<T>(r: Result<T, WayclipError>) -> Result<T, ErrorClass> {
    match r {
        Ok(v) => Ok(v),
        Err(e) => Err(class_of(e)),
    }
}

/// The category of an error, computed.
pub fn error_class(e: &WayclipError) -> (c: ErrorClass)
    ensures
        c == class_of(*e),
{
    match e {
        WayclipError::Ring(_) => ErrorClass::Ring,
        WayclipError::Remux(_) => ErrorClass::Remux,
        WayclipError::Tray(_) => ErrorClass::Tray,
        WayclipError::Pipewire(_) => ErrorClass::Pipewire,
        WayclipError::Discovery(_) => ErrorClass::Discovery,
        WayclipError::Audio(_) => ErrorClass::Audio,
        WayclipError::Screencast(_) => ErrorClass::Screencast,
        WayclipError::Video(_) => ErrorClass::Video,
        WayclipError::Watcher(_) => ErrorClass::Watcher,
        WayclipError::Fatal(_) => ErrorClass::Fatal,
        WayclipError::CLI(_) => ErrorClass::CLI,
        WayclipError::Config(_) => ErrorClass::Config,
        WayclipError::Api(_) => ErrorClass::Api,
        WayclipError::Validation(_) => ErrorClass::Validation,
        WayclipError::NotFound(_) => ErrorClass::NotFound,
        WayclipError::ParseInt(k) => ErrorClass::ParseInt(*k),
        WayclipError::ParseBool => ErrorClass::ParseBool,
        WayclipError::Regex(_) => ErrorClass::Regex,
        WayclipError::Url(_) => ErrorClass::Url,
        WayclipError::Keyring(_) => ErrorClass::Keyring,
    }
}

/// A `Validation` error with the given message.
pub fn validation(msg: &str) -> (e: WayclipError)
    ensures
        e matches WayclipError::Validation(m) && m@ == msg@,
{
    WayclipError::Validation(msg.to_owned())
}

/// A `NotFound` error with the given message.
pub fn not_found(msg: &str) -> (e: WayclipError)
    ensures
        e matches WayclipError::NotFound(m) && m@ == msg@,
{
    WayclipError::NotFound(msg.to_owned())
}

} // verus!
