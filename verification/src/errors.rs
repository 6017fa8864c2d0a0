//! Error taxonomy of the secret lifecycle, and the exact user-facing
//! messages that every failure and confirmation is rendered to.

use vstd::prelude::*;
use vstd::string::StringExecFns;

verus! {

/// Failure of a single store-adapter call (read, write or erase).
#[derive(Debug)]
pub enum StoreError {
    /// No entry with the requested name exists in the store.
    NotFound,
    /// The store refused access, typically because it is locked or
    /// user interaction is currently disabled.
    AccessDenied(String),
    /// Any other runtime failure of the underlying platform storage.
    PlatformFailure(String),
}

/// Failure of a lifecycle operation, as surfaced to the caller.
#[derive(Debug)]
pub enum OpError {
    /// The entry does not exist or is inaccessible.
    NotFound,
    /// A value is already stored under this name and overwriting was not forced.
    AlreadyExists,
    /// An opaque platform failure, with its detail text.
    PlatformFailure(String),
    /// User interaction is not permitted, so the store cannot be unlocked or read.
    NoInteraction,
    /// No interactive terminal could be opened to prompt for a passphrase.
    NoTerminal(String),
    /// The store rejected the passphrase captured from the user.
    InvalidPassphrase(String),
    /// The store refused to write the new value.
    WriteFailed,
    /// The store refused to erase the entry, or there was nothing to erase.
    DeleteFailed,
    /// The platform binding for the entry could not be constructed at all.
    ConfigurationError,
}

/// The confirmation message printed after a successful set.
pub open spec fn set_ok_message(name: Seq<char>) -> Seq<char> {
    "Password \""@ + name + "\" set"@
}

/// The confirmation message printed after a successful delete.
pub open spec fn delete_ok_message(name: Seq<char>) -> Seq<char> {
    "Password \""@ + name + "\" deleted"@
}

/// The message that a failed operation on `name` is rendered to.
pub open spec fn op_message(name: Seq<char>, e: OpError) -> Seq<char> {
    match e {
        OpError::NotFound => "Entry \""@ + name + "\" doesn't exists"@,
        OpError::AlreadyExists => (
            "Entry \""@ + name + "\" already exists. Please use force parameter to override it."@
        ),
        OpError::PlatformFailure(d) => d@,
        OpError::NoInteraction => "Unable to get entry \""@ + name + "\": User interaction are disabled"@,
        OpError::NoTerminal(d) => d@,
        OpError::InvalidPassphrase(d) => d@,
        OpError::WriteFailed => "Unable to set password \""@ + name + "\""@,
        OpError::DeleteFailed => "Unable to delete password \""@ + name + "\""@,
        OpError::ConfigurationError => "Unable to load keyring \"envchain\" for value \""@ + name + "\""@,
    }
}

/// Builds the set confirmation for `name`.
pub fn render_set_ok(name: &str) -> (r: String)
    ensures
        r@ == set_ok_message(name@),
{
    let mut s = String::from_str("Password \"");
    s.append(name);
    s.append("\" set");
    s
}

/// Builds the delete confirmation for `name`.
pub fn render_delete_ok(name: &str) -> (r: String)
    ensures
        r@ == delete_ok_message(name@),
{
    let mut s = String::from_str("Password \"");
    s.append(name);
    s.append("\" deleted");
    s
}

/// Renders the failure `e` of an operation on `name` to its message.
pub fn render_op_message(name: &str, e: &OpError) -> (r: String)
    ensures
        r@ == op_message(name@, *e),
{
    match e {
        OpError::NotFound => {
            let mut s = String::from_str("Entry \"");
            s.append(name);
            s.append("\" doesn't exists");
            s
        },
        OpError::AlreadyExists => {
            let mut s = String::from_str("Entry \"");
            s.append(name);
            s.append("\" already exists. Please use force parameter to override it.");
            s
        },
        OpError::PlatformFailure(d) => d.clone(),
        OpError::NoInteraction => {
            let mut s = String::from_str("Unable to get entry \"");
            s.append(name);
            s.append("\": User interaction are disabled");
            s
        },
        OpError::NoTerminal(d) => d.clone(),
        OpError::InvalidPassphrase(d) => d.clone(),
        OpError::WriteFailed => {
            let mut s = String::from_str("Unable to set password \"");
            s.append(name);
            s.append("\"");
            s
        },
        OpError::DeleteFailed => {
            let mut s = String::from_str("Unable to delete password \"");
            s.append(name);
            s.append("\"");
            s
        },
        OpError::ConfigurationError => {
            let mut s = String::from_str("Unable to load keyring \"envchain\" for value \"");
            s.append(name);
            s.append("\"");
            s
        },
    }
}

} // verus!
