use envchain::errors::{render_op_message, OpError};
use envchain::keychain::{decide_set, handle_command, keyring_service, open_keyring, SetDecision};
use envchain::policy::Command;
use envchain::unlock::{
    action_of, step, UnlockAction, UnlockEvent, UnlockOutcome, UnlockState,
};
use envchain::utils::get_data_dir;

#[test]
fn unlock_denied_interaction_fails_at_once() {
    let s = step(UnlockState::Start, UnlockEvent::InteractionChecked(false));
    match &s {
        UnlockState::Done(UnlockOutcome::Failed(OpError::NoInteraction)) => {}
        other => panic!("unexpected state {:?}", other),
    }
    assert_eq!(action_of(&s), UnlockAction::Stop);
}

#[test]
fn unlock_with_default_credential() {
    let s = step(UnlockState::Start, UnlockEvent::InteractionChecked(true));
    assert_eq!(action_of(&s), UnlockAction::AttemptDefaultUnlock);
    let s = step(s, UnlockEvent::DefaultUnlockFinished(true));
    assert!(matches!(s, UnlockState::Done(UnlockOutcome::UnlockedWithDefault)));
}

#[test]
fn unlock_interactively_after_default_fails() {
    let s = step(UnlockState::Start, UnlockEvent::InteractionChecked(true));
    let s = step(s, UnlockEvent::DefaultUnlockFinished(false));
    assert_eq!(action_of(&s), UnlockAction::OpenTerminalAndPrompt);
    let s = step(s, UnlockEvent::PromptFinished(Ok(())));
    assert_eq!(action_of(&s), UnlockAction::AttemptPassphraseUnlock);
    let s = step(s, UnlockEvent::PassphraseUnlockFinished(Ok(())));
    assert!(matches!(s, UnlockState::Done(UnlockOutcome::UnlockedInteractively)));
}

#[test]
fn unlock_fails_without_a_terminal() {
    let s = step(UnlockState::Start, UnlockEvent::InteractionChecked(true));
    let s = step(s, UnlockEvent::DefaultUnlockFinished(false));
    let s = step(s, UnlockEvent::PromptFinished(Err(String::from("no tty"))));
    match s {
        UnlockState::Done(UnlockOutcome::Failed(OpError::NoTerminal(d))) => {
            assert_eq!(d, "no tty");
        }
        other => panic!("unexpected state {:?}", other),
    }
}

#[test]
fn unlock_fails_on_bad_passphrase_without_retry() {
    let s = step(UnlockState::Start, UnlockEvent::InteractionChecked(true));
    let s = step(s, UnlockEvent::DefaultUnlockFinished(false));
    let s = step(s, UnlockEvent::PromptFinished(Ok(())));
    let s = step(s, UnlockEvent::PassphraseUnlockFinished(Err(String::from("bad pass"))));
    match &s {
        UnlockState::Done(UnlockOutcome::Failed(OpError::InvalidPassphrase(d))) => {
            assert_eq!(d, "bad pass");
        }
        other => panic!("unexpected state {:?}", other),
    }
    // Terminal: the protocol stops here rather than prompting again.
    assert_eq!(action_of(&s), UnlockAction::Stop);
}

#[test]
fn set_decision_follows_overwrite_protection() {
    assert_eq!(decide_set(true, false), SetDecision::Reject);
    assert_eq!(decide_set(true, true), SetDecision::ReplaceExisting);
    assert_eq!(decide_set(false, false), SetDecision::CreateNew);
    assert_eq!(decide_set(false, true), SetDecision::CreateNew);
}

#[test]
fn handle_command_aborts_on_failed_unlock() {
    let unlock = UnlockOutcome::Failed(OpError::NoInteraction);
    let get = Command::Get { name: String::from("token") };
    assert_eq!(
        handle_command(&unlock, &get).unwrap_err(),
        "Unable to get entry \"token\": User interaction are disabled"
    );

    let unlock = UnlockOutcome::Failed(OpError::NoTerminal(String::from("cannot open tty")));
    let del = Command::Delete { name: String::from("token") };
    assert_eq!(handle_command(&unlock, &del).unwrap_err(), "cannot open tty");

    let unlock =
        UnlockOutcome::Failed(OpError::InvalidPassphrase(String::from("wrong passphrase")));
    let put = Command::Put {
        name: String::from("token"),
        value: String::from("v"),
        force: false,
    };
    assert_eq!(handle_command(&unlock, &put).unwrap_err(), "wrong passphrase");
}

#[test]
fn open_keyring_constructs_the_platform_binding() {
    assert_eq!(keyring_service(), "envchain");
    // Building the binding touches no storage, so it succeeds here.
    assert!(open_keyring("token").is_ok());
}

#[test]
fn every_failure_renders_its_exact_message() {
    assert_eq!(
        render_op_message("n", &OpError::NotFound),
        "Entry \"n\" doesn't exists"
    );
    assert_eq!(
        render_op_message("n", &OpError::AlreadyExists),
        "Entry \"n\" already exists. Please use force parameter to override it."
    );
    assert_eq!(
        render_op_message("n", &OpError::PlatformFailure(String::from("boom"))),
        "boom"
    );
    assert_eq!(
        render_op_message("n", &OpError::NoInteraction),
        "Unable to get entry \"n\": User interaction are disabled"
    );
    assert_eq!(
        render_op_message("n", &OpError::NoTerminal(String::from("tty gone"))),
        "tty gone"
    );
    assert_eq!(
        render_op_message("n", &OpError::InvalidPassphrase(String::from("denied"))),
        "denied"
    );
    assert_eq!(
        render_op_message("n", &OpError::WriteFailed),
        "Unable to set password \"n\""
    );
    assert_eq!(
        render_op_message("n", &OpError::DeleteFailed),
        "Unable to delete password \"n\""
    );
    assert_eq!(
        render_op_message("n", &OpError::ConfigurationError),
        "Unable to load keyring \"envchain\" for value \"n\""
    );
}

#[test]
fn data_dir_prefers_explicit_override() {
    assert_eq!(
        get_data_dir(Some(String::from("/tmp/override")), Some(String::from("/home/u/.local"))),
        "/tmp/override"
    );
    assert_eq!(
        get_data_dir(None, Some(String::from("/home/u/.local"))),
        "/home/u/.local"
    );
    assert_eq!(get_data_dir(None, None), "./.data");
}
