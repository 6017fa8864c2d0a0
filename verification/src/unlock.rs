//! The unlock protocol: before any entry operation the secure store must be
//! unlocked and interactive-capable.
//!
//! The protocol is a small state machine. The decisions live here, verified;
//! a driver performs the outside work of each state (querying interaction
//! permission, attempting unlocks, prompting at the terminal) and feeds the
//! result back as an event. The protocol runs once per invocation, and a
//! failure is terminal: there is no retry loop.

use vstd::prelude::*;

use crate::errors::OpError;

verus! {

/// The outcome of one run of the unlock protocol.
#[derive(Debug)]
pub enum UnlockOutcome {
    /// The store has no lock state at all, so nothing had to be unlocked.
    AlreadyUnlocked,
    /// The store's default (cached) credential unlocked it.
    UnlockedWithDefault,
    /// A passphrase captured at the terminal unlocked it. The passphrase
    /// itself is consumed by the unlock attempt and never retained.
    UnlockedInteractively,
    /// The store could not be unlocked; every operation must abort.
    Failed(OpError),
}

/// The states of the protocol.
#[derive(Debug)]
pub enum UnlockState {
    /// Query whether user interaction is currently permitted. If it is not,
    /// the protocol must not prompt: it fails at once.
    Start,
    /// Attempt to unlock with the store's default credential.
    TryDefaultUnlock,
    /// Open an interactive terminal and read a masked passphrase.
    PromptUser,
    /// Submit the captured passphrase to the store.
    TryPassphraseUnlock,
    /// The protocol has finished with this outcome.
    Done(UnlockOutcome),
}

/// What the driver reports back after performing a state's action.
#[derive(Debug)]
pub enum UnlockEvent {
    /// Whether user interaction is permitted.
    InteractionChecked(bool),
    /// Whether the default unlock attempt succeeded.
    DefaultUnlockFinished(bool),
    /// Whether a passphrase was captured; on failure, the terminal's error text.
    PromptFinished(Result<(), String>),
    /// Whether the passphrase unlocked the store; on failure, the store's error text.
    PassphraseUnlockFinished(Result<(), String>),
}

/// The outside action a driver must perform in a state.
#[derive(Debug, PartialEq, Eq, Structural)]
pub enum UnlockAction {
    QueryInteraction,
    AttemptDefaultUnlock,
    OpenTerminalAndPrompt,
    AttemptPassphraseUnlock,
    Stop,
}

/// The transition relation of the protocol. An event that does not belong to
/// the current state leaves the state unchanged; a finished protocol stays
/// finished.
pub open spec fn spec_step(s: UnlockState, e: UnlockEvent) -> UnlockState {
    match (s, e) {
        (UnlockState::Start, UnlockEvent::InteractionChecked(allowed)) => if allowed {
            UnlockState::TryDefaultUnlock
        } else {
            UnlockState::Done(UnlockOutcome::Failed(OpError::NoInteraction))
        },
        (UnlockState::TryDefaultUnlock, UnlockEvent::DefaultUnlockFinished(ok)) => if ok {
            UnlockState::Done(UnlockOutcome::UnlockedWithDefault)
        } else {
            UnlockState::PromptUser
        },
        (UnlockState::PromptUser, UnlockEvent::PromptFinished(r)) => match r {
            Ok(_) => UnlockState::TryPassphraseUnlock,
            Err(d) => UnlockState::Done(UnlockOutcome::Failed(OpError::NoTerminal(d))),
        },
        (UnlockState::TryPassphraseUnlock, UnlockEvent::PassphraseUnlockFinished(r)) => match r {
            Ok(_) => UnlockState::Done(UnlockOutcome::UnlockedInteractively),
            Err(d) => UnlockState::Done(UnlockOutcome::Failed(OpError::InvalidPassphrase(d))),
        },
        (s0, _) => s0,
    }
}

/// Advances the protocol by one event.
pub fn step(s: UnlockState, e: UnlockEvent) -> (next: UnlockState)
    ensures
        next == spec_step(s, e),
{
    match (s, e) {
        (UnlockState::Start, UnlockEvent::InteractionChecked(allowed)) => if allowed {
            UnlockState::TryDefaultUnlock
        } else {
            UnlockState::Done(UnlockOutcome::Failed(OpError::NoInteraction))
        },
        (UnlockState::TryDefaultUnlock, UnlockEvent::DefaultUnlockFinished(ok)) => if ok {
            UnlockState::Done(UnlockOutcome::UnlockedWithDefault)
        } else {
            UnlockState::PromptUser
        },
        (UnlockState::PromptUser, UnlockEvent::PromptFinished(r)) => match r {
            Ok(_) => UnlockState::TryPassphraseUnlock,
            Err(d) => UnlockState::Done(UnlockOutcome::Failed(OpError::NoTerminal(d))),
        },
        (UnlockState::TryPassphraseUnlock, UnlockEvent::PassphraseUnlockFinished(r)) => match r {
            Ok(_) => UnlockState::Done(UnlockOutcome::UnlockedInteractively),
            Err(d) => UnlockState::Done(UnlockOutcome::Failed(OpError::InvalidPassphrase(d))),
        },
        (s0, _) => s0,
    }
}

/// The action owed in a state.
pub open spec fn spec_action(s: UnlockState) -> UnlockAction {
    match s {
        UnlockState::Start => UnlockAction::QueryInteraction,
        UnlockState::TryDefaultUnlock => UnlockAction::AttemptDefaultUnlock,
        UnlockState::PromptUser => UnlockAction::OpenTerminalAndPrompt,
        UnlockState::TryPassphraseUnlock => UnlockAction::AttemptPassphraseUnlock,
        UnlockState::Done(_) => UnlockAction::Stop,
    }
}

/// Returns the action a driver must perform next.
pub fn action_of(s: &UnlockState) -> (a: UnlockAction)
    ensures
        a == spec_action(*s),
{
    match s {
        UnlockState::Start => UnlockAction::QueryInteraction,
        UnlockState::TryDefaultUnlock => UnlockAction::AttemptDefaultUnlock,
        UnlockState::PromptUser => UnlockAction::OpenTerminalAndPrompt,
        UnlockState::TryPassphraseUnlock => UnlockAction::AttemptPassphraseUnlock,
        UnlockState::Done(_) => UnlockAction::Stop,
    }
}

/// The outcome a complete run of the protocol owes, given what each outside
/// attempt reported.
pub open spec fn protocol_outcome(
    allowed: bool,
    default_ok: bool,
    prompt: Result<(), String>,
    passphrase: Result<(), String>,
) -> UnlockOutcome {
    if !allowed {
        UnlockOutcome::Failed(OpError::NoInteraction)
    } else if default_ok {
        UnlockOutcome::UnlockedWithDefault
    } else {
        match prompt {
            Err(d) => UnlockOutcome::Failed(OpError::NoTerminal(d)),
            Ok(_) => match passphrase {
                Ok(_) => UnlockOutcome::UnlockedInteractively,
                Err(d) => UnlockOutcome::Failed(OpError::InvalidPassphrase(d)),
            },
        }
    }
}

/// Law: when interaction is not permitted, the protocol fails at once with
/// `NoInteraction` and its next action is to stop — it never reaches a state
/// that prompts or touches the store.
pub proof fn lemma_no_interaction_short_circuit()
    ensures
        spec_step(UnlockState::Start, UnlockEvent::InteractionChecked(false)) == UnlockState::Done(
            UnlockOutcome::Failed(OpError::NoInteraction),
        ),
        spec_action(spec_step(UnlockState::Start, UnlockEvent::InteractionChecked(false)))
            == UnlockAction::Stop,
{
}

/// Law: a failed passphrase attempt ends the protocol — there is no retry
/// loop back to the prompt.
pub proof fn lemma_no_retry(detail: String)
    ensures
        spec_step(
            UnlockState::TryPassphraseUnlock,
            UnlockEvent::PassphraseUnlockFinished(Err(detail)),
        ) == UnlockState::Done(UnlockOutcome::Failed(OpError::InvalidPassphrase(detail))),
{
}

/// Law: feeding the protocol the reports of all four outside attempts, in
/// order, always finishes it, with exactly the outcome `protocol_outcome`
/// assigns to those reports. Events past the protocol's end leave it finished.
pub proof fn lemma_protocol_run(
    allowed: bool,
    default_ok: bool,
    prompt: Result<(), String>,
    passphrase: Result<(), String>,
)
    ensures
        spec_step(
            spec_step(
                spec_step(
                    spec_step(UnlockState::Start, UnlockEvent::InteractionChecked(allowed)),
                    UnlockEvent::DefaultUnlockFinished(default_ok),
                ),
                UnlockEvent::PromptFinished(prompt),
            ),
            UnlockEvent::PassphraseUnlockFinished(passphrase),
        ) == UnlockState::Done(protocol_outcome(allowed, default_ok, prompt, passphrase)),
{
}

} // verus!
