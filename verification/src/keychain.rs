//! The platform secret-store adapter: the keyring crate, driven behind a
//! small trusted surface, and the verified lifecycle logic on top of it.
//!
//! What the platform store reports depends on its own state (what is stored,
//! whether it is locked), so the wrappers promise nothing of their outcomes;
//! the verified functions state what is returned for every outcome, and the
//! classification of an outcome is pinned exactly.

use vstd::prelude::*;

use crate::errors::{
    delete_ok_message, op_message, render_delete_ok, render_op_message, render_set_ok,
    set_ok_message, OpError, StoreError,
};
use crate::policy::{cmd_name, command_name, Command};
use crate::unlock::UnlockOutcome;

verus! {

#[verifier::external_type_specification]
#[verifier::external_body]
pub struct ExEntry(keyring::Entry);

/// The fixed namespace isolating this tool's entries in the shared OS store.
pub fn keyring_service() -> (r: &'static str)
    ensures
        r@ == "envchain"@,
{
    "envchain"
}

/// Relies on keyring::Entry::new: builds the platform credential binding for
/// (service, name); it fails only when the binding cannot be constructed.
#[verifier::external_body]
fn entry_new(service: &str, name: &str) -> (r: Result<keyring::Entry, StoreError>) {
    match keyring::Entry::new(service, name) {
        Ok(e) => Ok(e),
        Err(err) => Err(StoreError::PlatformFailure(err.to_string())),
    }
}

/// Relies on keyring::Entry::get_password: reads this entry's secret.
/// `NoEntry` means none is stored; `NoStorageAccess` that the store refused
/// access, for instance because it is locked.
#[verifier::external_body]
fn entry_read(entry: &keyring::Entry) -> (r: Result<String, StoreError>) {
    match entry.get_password() {
        Ok(v) => Ok(v),
        Err(keyring::Error::NoEntry) => Err(StoreError::NotFound),
        Err(keyring::Error::NoStorageAccess(err)) => Err(StoreError::AccessDenied(err.to_string())),
        Err(err) => Err(StoreError::PlatformFailure(err.to_string())),
    }
}

/// Relies on keyring::Entry::set_password: writes this entry's secret,
/// overwriting unconditionally when the platform allows it.
#[verifier::external_body]
fn entry_write(entry: &keyring::Entry, value: &str) -> (r: Result<(), StoreError>) {
    match entry.set_password(value) {
        Ok(_) => Ok(()),
        Err(keyring::Error::NoStorageAccess(err)) => Err(StoreError::AccessDenied(err.to_string())),
        Err(err) => Err(StoreError::PlatformFailure(err.to_string())),
    }
}

/// Relies on keyring::Entry::delete_password: erases this entry's secret;
/// `NoEntry` means there was none to erase.
#[verifier::external_body]
fn entry_erase(entry: &keyring::Entry) -> (r: Result<(), StoreError>) {
    match entry.delete_password() {
        Ok(_) => Ok(()),
        Err(keyring::Error::NoEntry) => Err(StoreError::NotFound),
        Err(keyring::Error::NoStorageAccess(err)) => Err(StoreError::AccessDenied(err.to_string())),
        Err(err) => Err(StoreError::PlatformFailure(err.to_string())),
    }
}

/// Opens the platform binding for `name` under the tool's namespace. A
/// construction failure is a fatal configuration error, not a
/// user-recoverable one.
pub fn open_keyring(name: &str) -> (r: Result<keyring::Entry, OpError>)
    ensures
        r matches Err(e) ==> e matches OpError::ConfigurationError,
{
    match entry_new(keyring_service(), name) {
        Ok(e) => Ok(e),
        Err(_) => Err(OpError::ConfigurationError),
    }
}

/// Classifies the probe outcome of a get: a value read is returned as is; a
/// refusal because interaction is disabled is surfaced as `NoInteraction`;
/// every other failure uniformly as `NotFound` — "no secret obtained".
pub fn get_outcome(probe: Result<String, StoreError>) -> (r: Result<String, OpError>)
    ensures
        probe matches Ok(v) ==> (r matches Ok(rv) && rv == v),
        probe matches Err(StoreError::AccessDenied(_)) ==> (r matches Err(e)
            && e matches OpError::NoInteraction),
        (probe matches Err(e0) && !(e0 matches StoreError::AccessDenied(_))) ==> (r matches Err(e)
            && e matches OpError::NotFound),
{
    match probe {
        Ok(v) => Ok(v),
        Err(StoreError::AccessDenied(_)) => Err(OpError::NoInteraction),
        Err(_) => Err(OpError::NotFound),
    }
}

/// Reads the secret behind `entry`. Whatever the platform reported, the
/// failure is `NotFound` or `NoInteraction`, classified as `get_outcome`
/// states.
pub fn keyring_get(entry: &keyring::Entry) -> (r: Result<String, OpError>)
    ensures
        r matches Err(e) ==> (e matches OpError::NotFound || e matches OpError::NoInteraction),
{
    get_outcome(entry_read(entry))
}

/// What a set must do once existence has been probed.
#[derive(Debug, PartialEq, Eq, Structural)]
pub enum SetDecision {
    /// An entry exists and overwriting was not forced: reject the set.
    Reject,
    /// An entry exists and overwriting was forced: warn, erase, then write.
    ReplaceExisting,
    /// Nothing is stored yet: write directly.
    CreateNew,
}

/// The overwrite-protection rule of the lifecycle policy.
pub open spec fn spec_decide_set(exists_already: bool, force: bool) -> SetDecision {
    if exists_already && !force {
        SetDecision::Reject
    } else if exists_already {
        SetDecision::ReplaceExisting
    } else {
        SetDecision::CreateNew
    }
}

/// Decides what a set owes, from the probe's outcome and the force flag.
pub fn decide_set(exists_already: bool, force: bool) -> (d: SetDecision)
    ensures
        d == spec_decide_set(exists_already, force),
{
    if exists_already && !force {
        SetDecision::Reject
    } else if exists_already {
        SetDecision::ReplaceExisting
    } else {
        SetDecision::CreateNew
    }
}

/// Writes `value` behind `entry` and renders the confirmation for `name`.
fn write_and_confirm(entry: &keyring::Entry, name: &str, value: &str) -> (r: Result<
    String,
    OpError,
>)
    ensures
        r matches Ok(m) ==> m@ == set_ok_message(name@),
        r matches Err(e) ==> e matches OpError::WriteFailed,
{
    match entry_write(entry, value) {
        Ok(_) => Ok(render_set_ok(name)),
        Err(_) => Err(OpError::WriteFailed),
    }
}

/// Sets the secret behind `entry`: probes existence, applies overwrite
/// protection, on a forced replacement warns and erases first, then writes.
/// Whatever the platform reported: a success message is exactly the set
/// confirmation, a failure is one of the three set failures, and a forced
/// set is never rejected as already existing.
pub fn keyring_set(entry: &keyring::Entry, name: &str, value: &str, force: bool) -> (r: Result<
    String,
    OpError,
>)
    ensures
        r matches Ok(m) ==> m@ == set_ok_message(name@),
        r matches Err(e) ==> (e matches OpError::AlreadyExists || e matches OpError::DeleteFailed
            || e matches OpError::WriteFailed),
        force ==> !(r matches Err(OpError::AlreadyExists)),
{
    let exists_already = entry_read(entry).is_ok();
    match decide_set(exists_already, force) {
        SetDecision::Reject => Err(OpError::AlreadyExists),
        SetDecision::ReplaceExisting => {
            crate::diag::warn_overriding(name);
            match entry_erase(entry) {
                Ok(_) => write_and_confirm(entry, name, value),
                Err(_) => Err(OpError::DeleteFailed),
            }
        },
        SetDecision::CreateNew => write_and_confirm(entry, name, value),
    }
}

/// Deletes the secret behind `entry`. Whatever the platform reported — the
/// entry was absent or the erase failed — the failure is `DeleteFailed`: the
/// end state, absence, is the same.
pub fn keyring_delete(entry: &keyring::Entry, name: &str) -> (r: Result<String, OpError>)
    ensures
        r matches Ok(m) ==> m@ == delete_ok_message(name@),
        r matches Err(e) ==> e matches OpError::DeleteFailed,
{
    match entry_erase(entry) {
        Ok(_) => Ok(render_delete_ok(name)),
        Err(_) => Err(OpError::DeleteFailed),
    }
}

/// Handles one command against the platform keyring, given the unlock
/// protocol's outcome. A failed unlock aborts at once, before any entry
/// operation; otherwise the command's name is bound and the operation runs.
/// Every failure is rendered to the message `op_message` assigns it, and
/// every success message is the exact confirmation for the command.
pub fn handle_command(unlock: &UnlockOutcome, command: &Command) -> (r: Result<String, String>)
    ensures
        *unlock matches UnlockOutcome::Failed(e) ==> (r matches Err(m) && m@ == op_message(
            cmd_name(*command),
            e,
        )),
        !(*unlock matches UnlockOutcome::Failed(_)) ==> (*command matches Command::Put {
            name,
            value,
            force,
        } ==> (r matches Ok(m) ==> m@ == set_ok_message(name@))),
        !(*unlock matches UnlockOutcome::Failed(_)) ==> (*command matches Command::Delete { name }
            ==> (r matches Ok(m) ==> m@ == delete_ok_message(name@))),
        r matches Err(m) ==> (exists|e: OpError| m@ == #[trigger] op_message(
            cmd_name(*command),
            e,
        )),
{
    if let UnlockOutcome::Failed(e) = unlock {
        let name = command_name(command);
        return Err(render_op_message(name, e));
    }
    match command {
        Command::Get { name } => match open_keyring(name.as_str()) {
            Ok(entry) => match keyring_get(&entry) {
                Ok(v) => Ok(v),
                Err(e) => {
                    let msg = render_op_message(name.as_str(), &e);
                    proof {
                        assert(msg@ == op_message(cmd_name(*command), e));
                    }
                    Err(msg)
                },
            },
            Err(e) => {
                let msg = render_op_message(name.as_str(), &e);
                proof {
                    assert(msg@ == op_message(cmd_name(*command), e));
                }
                Err(msg)
            },
        },
        Command::Put { name, value, force } => match open_keyring(name.as_str()) {
            Ok(entry) => match keyring_set(&entry, name.as_str(), value.as_str(), *force) {
                Ok(m) => Ok(m),
                Err(e) => {
                    let msg = render_op_message(name.as_str(), &e);
                    proof {
                        assert(msg@ == op_message(cmd_name(*command), e));
                    }
                    Err(msg)
                },
            },
            Err(e) => {
                let msg = render_op_message(name.as_str(), &e);
                proof {
                    assert(msg@ == op_message(cmd_name(*command), e));
                }
                Err(msg)
            },
        },
        Command::Delete { name } => match open_keyring(name.as_str()) {
            Ok(entry) => match keyring_delete(&entry, name.as_str()) {
                Ok(m) => Ok(m),
                Err(e) => {
                    let msg = render_op_message(name.as_str(), &e);
                    proof {
                        assert(msg@ == op_message(cmd_name(*command), e));
                    }
                    Err(msg)
                },
            },
            Err(e) => {
                let msg = render_op_message(name.as_str(), &e);
                proof {
                    assert(msg@ == op_message(cmd_name(*command), e));
                }
                Err(msg)
            },
        },
    }
}

} // verus!
