use envchain::errors::OpError;
use envchain::policy::{delete_secret, get_secret, run_command, set_secret, Command};
use envchain::store::MemStore;
use envchain::unlock::UnlockOutcome;

#[test]
fn round_trip_set_then_get() {
    let mut store = MemStore::new();
    let msg = set_secret(&mut store, "api-key", "s3cr3t", false).unwrap();
    assert_eq!(msg, "Password \"api-key\" set");
    assert_eq!(get_secret(&store, "api-key").unwrap(), "s3cr3t");
}

#[test]
fn round_trip_many_entries() {
    let mut store = MemStore::new();
    set_secret(&mut store, "a", "1", false).unwrap();
    set_secret(&mut store, "b", "2", false).unwrap();
    set_secret(&mut store, "c", "3", false).unwrap();
    assert_eq!(get_secret(&store, "a").unwrap(), "1");
    assert_eq!(get_secret(&store, "b").unwrap(), "2");
    assert_eq!(get_secret(&store, "c").unwrap(), "3");
}

#[test]
fn overwrite_without_force_is_rejected() {
    let mut store = MemStore::new();
    set_secret(&mut store, "token", "v1", false).unwrap();
    let err = set_secret(&mut store, "token", "v2", false).unwrap_err();
    assert!(matches!(err, OpError::AlreadyExists));
    assert_eq!(get_secret(&store, "token").unwrap(), "v1");
}

#[test]
fn forced_overwrite_replaces_the_value() {
    let mut store = MemStore::new();
    set_secret(&mut store, "token", "v1", false).unwrap();
    let msg = set_secret(&mut store, "token", "v2", true).unwrap();
    assert_eq!(msg, "Password \"token\" set");
    assert_eq!(get_secret(&store, "token").unwrap(), "v2");
}

#[test]
fn delete_of_absent_name_fails() {
    let mut store = MemStore::new();
    let err = delete_secret(&mut store, "ghost").unwrap_err();
    assert!(matches!(err, OpError::DeleteFailed));
}

#[test]
fn after_delete_the_entry_is_gone() {
    let mut store = MemStore::new();
    set_secret(&mut store, "token", "v1", false).unwrap();
    let msg = delete_secret(&mut store, "token").unwrap();
    assert_eq!(msg, "Password \"token\" deleted");
    let err = get_secret(&store, "token").unwrap_err();
    assert!(matches!(err, OpError::NotFound));
}

#[test]
fn get_of_absent_name_fails() {
    let store = MemStore::new();
    let err = get_secret(&store, "missing").unwrap_err();
    assert!(matches!(err, OpError::NotFound));
}

#[test]
fn no_interaction_blocks_every_operation() {
    let mut store = MemStore::new();
    set_secret(&mut store, "keep", "safe", false).unwrap();
    let unlock = UnlockOutcome::Failed(OpError::NoInteraction);

    let get = Command::Get { name: String::from("keep") };
    let put = Command::Put {
        name: String::from("keep"),
        value: String::from("changed"),
        force: true,
    };
    let del = Command::Delete { name: String::from("keep") };

    let expected = "Unable to get entry \"keep\": User interaction are disabled";
    assert_eq!(run_command(&unlock, &get, &mut store).unwrap_err(), expected);
    assert_eq!(run_command(&unlock, &put, &mut store).unwrap_err(), expected);
    assert_eq!(run_command(&unlock, &del, &mut store).unwrap_err(), expected);

    // The store was never touched.
    assert_eq!(get_secret(&store, "keep").unwrap(), "safe");
}

#[test]
fn scenario_full_lifecycle() {
    let mut store = MemStore::new();
    let unlock = UnlockOutcome::AlreadyUnlocked;

    let set1 = Command::Put {
        name: String::from("token"),
        value: String::from("abc123"),
        force: false,
    };
    let msg = run_command(&unlock, &set1, &mut store).unwrap();
    assert!(msg.contains("token"));
    assert_eq!(msg, "Password \"token\" set");

    let get = Command::Get { name: String::from("token") };
    assert_eq!(run_command(&unlock, &get, &mut store).unwrap(), "abc123");

    let set2 = Command::Put {
        name: String::from("token"),
        value: String::from("xyz999"),
        force: false,
    };
    let err = run_command(&unlock, &set2, &mut store).unwrap_err();
    assert_eq!(
        err,
        "Entry \"token\" already exists. Please use force parameter to override it."
    );

    let set3 = Command::Put {
        name: String::from("token"),
        value: String::from("xyz999"),
        force: true,
    };
    run_command(&unlock, &set3, &mut store).unwrap();
    assert_eq!(run_command(&unlock, &get, &mut store).unwrap(), "xyz999");

    let del = Command::Delete { name: String::from("token") };
    assert_eq!(
        run_command(&unlock, &del, &mut store).unwrap(),
        "Password \"token\" deleted"
    );
    let err = run_command(&unlock, &get, &mut store).unwrap_err();
    assert_eq!(err, "Entry \"token\" doesn't exists");
}

#[test]
fn delete_failure_message_names_the_entry() {
    let mut store = MemStore::new();
    let unlock = UnlockOutcome::AlreadyUnlocked;
    let del = Command::Delete { name: String::from("absent") };
    assert_eq!(
        run_command(&unlock, &del, &mut store).unwrap_err(),
        "Unable to delete password \"absent\""
    );
}

#[test]
fn empty_name_and_value_round_trip_in_the_fallback_store() {
    let mut store = MemStore::new();
    set_secret(&mut store, "", "", false).unwrap();
    assert_eq!(get_secret(&store, "").unwrap(), "");
    let err = set_secret(&mut store, "", "again", false).unwrap_err();
    assert!(matches!(err, OpError::AlreadyExists));
}
