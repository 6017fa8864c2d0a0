//! The secret lifecycle policy: the Get/Set/Delete decision logic —
//! existence checks, overwrite protection, forced overwrite — independent of
//! which store backs it.
//!
//! The policy is verified end to end against the in-process store: each
//! operation's contract pins the returned value or message and the store's
//! new contents, and the laws at the bottom state the lifecycle guarantees
//! over the abstract map model.

use vstd::prelude::*;

use crate::errors::{
    delete_ok_message, op_message, render_delete_ok, render_op_message, render_set_ok,
    set_ok_message, OpError,
};
use crate::store::MemStore;
use crate::unlock::UnlockOutcome;

verus! {

/// A lifecycle operation, already parsed and typed.
#[derive(Debug)]
pub enum Command {
    /// Retrieve the secret stored under `name`.
    Get { name: String },
    /// Store `value` under `name`; `force` overrides overwrite protection.
    Put { name: String, value: String, force: bool },
    /// Remove the secret stored under `name`.
    Delete { name: String },
}

/// The name a command operates on.
pub open spec fn cmd_name(c: Command) -> Seq<char> {
    match c {
        Command::Get { name } => name@,
        Command::Put { name, value, force } => name@,
        Command::Delete { name } => name@,
    }
}

/// Returns the name a command operates on.
pub fn command_name(c: &Command) -> (r: &str)
    ensures
        r@ == cmd_name(*c),
{
    match c {
        Command::Get { name } => name.as_str(),
        Command::Put { name, value: _, force: _ } => name.as_str(),
        Command::Delete { name } => name.as_str(),
    }
}

/// Whether a set of `name` may proceed on a store holding `m`: either
/// nothing is stored under `name` yet, or the caller forced the overwrite.
pub open spec fn set_allowed(m: Map<Seq<char>, Seq<char>>, name: Seq<char>, force: bool) -> bool {
    force || !m.contains_key(name)
}

/// Whether a delete of `name` can succeed on a store holding `m`.
pub open spec fn delete_allowed(m: Map<Seq<char>, Seq<char>>, name: Seq<char>) -> bool {
    m.contains_key(name)
}

/// The store's contents after a set of `value` under `name`: replaced or
/// created when allowed, untouched when rejected.
pub open spec fn store_after_set(
    m: Map<Seq<char>, Seq<char>>,
    name: Seq<char>,
    value: Seq<char>,
    force: bool,
) -> Map<Seq<char>, Seq<char>> {
    if set_allowed(m, name, force) {
        m.insert(name, value)
    } else {
        m
    }
}

/// The store's contents after a delete of `name`.
pub open spec fn store_after_delete(
    m: Map<Seq<char>, Seq<char>>,
    name: Seq<char>,
) -> Map<Seq<char>, Seq<char>> {
    if delete_allowed(m, name) {
        m.remove(name)
    } else {
        m
    }
}

/// Gets the secret stored under `name`; read never mutates. A missing entry
/// is surfaced as `NotFound` — "no secret obtained".
pub fn get_secret(store: &MemStore, name: &str) -> (r: Result<String, OpError>)
    requires
        store.wf(),
    ensures
        match r {
            Ok(v) => store@.contains_key(name@) && v@ == store@[name@],
            Err(e) => !store@.contains_key(name@) && e matches OpError::NotFound,
        },
{
    match store.read(name) {
        Ok(v) => Ok(v),
        Err(_) => Err(OpError::NotFound),
    }
}

/// Sets `value` under `name`. An existing entry is only replaced when
/// `force` is given; the replacement erases the old entry first, after a
/// warning on the diagnostic stream.
pub fn set_secret(store: &mut MemStore, name: &str, value: &str, force: bool) -> (r: Result<
    String,
    OpError,
>)
    requires
        old(store).wf(),
    ensures
        final(store).wf(),
        final(store)@ == store_after_set(old(store)@, name@, value@, force),
        set_allowed(old(store)@, name@, force) ==> (r matches Ok(m) && m@ == set_ok_message(
            name@,
        )),
        !set_allowed(old(store)@, name@, force) ==> (r matches Err(e)
            && e matches OpError::AlreadyExists),
{
    let exists_already = match store.read(name) {
        Ok(_) => true,
        Err(_) => false,
    };
    if exists_already && !force {
        return Err(OpError::AlreadyExists);
    }
    if exists_already {
        crate::diag::warn_overriding(name);
        match store.erase(name) {
            Ok(_) => {
            },
            Err(_) => {
                return Err(OpError::DeleteFailed);
            },
        }
    }
    let r = store.write(name, value);
    proof {
        assert(final(store)@ =~= store_after_set(old(store)@, name@, value@, force));
    }
    match r {
        Ok(_) => Ok(render_set_ok(name)),
        Err(_) => Err(OpError::WriteFailed),
    }
}

/// Deletes the entry stored under `name`; deleting what is absent fails,
/// since there is nothing to erase.
pub fn delete_secret(store: &mut MemStore, name: &str) -> (r: Result<String, OpError>)
    requires
        old(store).wf(),
    ensures
        final(store).wf(),
        final(store)@ == store_after_delete(old(store)@, name@),
        delete_allowed(old(store)@, name@) ==> (r matches Ok(m) && m@ == delete_ok_message(name@)),
        !delete_allowed(old(store)@, name@) ==> (r matches Err(e)
            && e matches OpError::DeleteFailed),
{
    match store.erase(name) {
        Ok(_) => Ok(render_delete_ok(name)),
        Err(_) => Err(OpError::DeleteFailed),
    }
}

/// Runs one command against the fallback store, given the unlock protocol's
/// outcome: the full per-invocation semantics of the tool. A failed unlock
/// aborts before any store operation, leaving the store untouched; the
/// result carries the value read, or the exact confirmation or failure
/// message.
pub fn run_command(unlock: &UnlockOutcome, command: &Command, store: &mut MemStore) -> (r: Result<
    String,
    String,
>)
    requires
        old(store).wf(),
    ensures
        final(store).wf(),
        *unlock matches UnlockOutcome::Failed(e) ==> {
            &&& final(store)@ == old(store)@
            &&& r matches Err(m) && m@ == op_message(cmd_name(*command), e)
        },
        !(*unlock matches UnlockOutcome::Failed(_)) ==> match *command {
            Command::Get { name } => {
                &&& final(store)@ == old(store)@
                &&& old(store)@.contains_key(name@) ==> (r matches Ok(v) && v@ == old(
                    store,
                )@[name@])
                &&& !old(store)@.contains_key(name@) ==> (r matches Err(m) && m@ == op_message(
                    name@,
                    OpError::NotFound,
                ))
            },
            Command::Put { name, value, force } => {
                &&& final(store)@ == store_after_set(old(store)@, name@, value@, force)
                &&& set_allowed(old(store)@, name@, force) ==> (r matches Ok(m) && m@
                    == set_ok_message(name@))
                &&& !set_allowed(old(store)@, name@, force) ==> (r matches Err(m) && m@
                    == op_message(name@, OpError::AlreadyExists))
            },
            Command::Delete { name } => {
                &&& final(store)@ == store_after_delete(old(store)@, name@)
                &&& delete_allowed(old(store)@, name@) ==> (r matches Ok(m) && m@
                    == delete_ok_message(name@))
                &&& !delete_allowed(old(store)@, name@) ==> (r matches Err(m) && m@ == op_message(
                    name@,
                    OpError::DeleteFailed,
                ))
            },
        },
{
    if let UnlockOutcome::Failed(e) = unlock {
        let name = command_name(command);
        return Err(render_op_message(name, e));
    }
    match command {
        Command::Get { name } => match get_secret(store, name.as_str()) {
            Ok(v) => Ok(v),
            Err(e) => Err(render_op_message(name.as_str(), &e)),
        },
        Command::Put { name, value, force } => match set_secret(
            store,
            name.as_str(),
            value.as_str(),
            *force,
        ) {
            Ok(m) => Ok(m),
            Err(e) => Err(render_op_message(name.as_str(), &e)),
        },
        Command::Delete { name } => match delete_secret(store, name.as_str()) {
            Ok(m) => Ok(m),
            Err(e) => Err(render_op_message(name.as_str(), &e)),
        },
    }
}

/// Law (round trip): setting a non-empty `value` under a non-empty `name`,
/// where the set is allowed, stores exactly `value` under `name`, so a get
/// of `name` returns it.
pub proof fn lemma_round_trip(
    m: Map<Seq<char>, Seq<char>>,
    name: Seq<char>,
    value: Seq<char>,
    force: bool,
)
    requires
        name.len() > 0,
        value.len() > 0,
        set_allowed(m, name, force),
    ensures
        store_after_set(m, name, value, force).contains_key(name),
        store_after_set(m, name, value, force)[name] == value,
{
}

/// Law (overwrite protection): on an existing `name`, a set without force is
/// rejected and the store — in particular the value a get retrieves — is
/// left unchanged.
pub proof fn lemma_overwrite_protected(
    m: Map<Seq<char>, Seq<char>>,
    name: Seq<char>,
    v2: Seq<char>,
)
    requires
        m.contains_key(name),
    ensures
        !set_allowed(m, name, false),
        store_after_set(m, name, v2, false) == m,
        store_after_set(m, name, v2, false)[name] == m[name],
{
}

/// Law (forced overwrite): on an existing `name`, a forced set succeeds and
/// a get then returns the new value — never the old one, when they differ.
pub proof fn lemma_forced_overwrite(m: Map<Seq<char>, Seq<char>>, name: Seq<char>, v2: Seq<char>)
    requires
        m.contains_key(name),
    ensures
        set_allowed(m, name, true),
        store_after_set(m, name, v2, true)[name] == v2,
        m[name] != v2 ==> store_after_set(m, name, v2, true)[name] != m[name],
{
}

/// Law (delete outcome): a delete of an absent `name` fails and changes
/// nothing; after any successful delete, `name` is absent, so a get of it
/// fails.
pub proof fn lemma_delete_outcome(m: Map<Seq<char>, Seq<char>>, name: Seq<char>)
    ensures
        !delete_allowed(m, name) ==> store_after_delete(m, name) == m,
        delete_allowed(m, name) ==> !store_after_delete(m, name).contains_key(name),
{
}

} // verus!
