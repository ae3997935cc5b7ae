//! The decisions of the supervisor at startup and at shutdown.
//!
//! The caller does the outside work (it creates the data directory, spawns
//! the helper, acquires the slot's lock, ends the process) and reports each
//! outcome here; the functions of this module say what follows from it.

use vstd::prelude::*;
use crate::config::{spawn_request_of, SpawnRequest, SupervisorConfig};
use crate::slot::HandleSlot;

verus! {

/// Why startup was abandoned. Each variant carries the message of the
/// failure that caused it.
#[derive(Debug, PartialEq, Eq)]
pub enum StartupError {
    /// The helper's data directory could not be created.
    DirectoryCreation(String),
    /// The helper could not be located or launched.
    Spawn(String),
}

impl StartupError {
    /// The message of the failure that ended startup.
    pub open spec fn spec_message(self) -> String {
        match self {
            StartupError::DirectoryCreation(message) => message,
            StartupError::Spawn(message) => message,
        }
    }

    /// Gives up the error for the message of the failure that caused it.
    pub fn into_message(self) -> (message: String)
        ensures
            message == self.spec_message(),
    {
        match self {
            StartupError::DirectoryCreation(message) => message,
            StartupError::Spawn(message) => message,
        }
    }
}

/// A lifecycle signal of the host application.
#[derive(Clone, Copy, Debug, PartialEq, Eq, Structural)]
pub enum HostSignal {
    /// The application was asked to exit.
    ExitRequested,
    /// The application is exiting.
    Exit,
    /// The main window was asked to close.
    CloseRequested,
    /// Any other signal.
    Other,
}

/// Whether `signal` means "shut down now".
pub open spec fn begins_shutdown(signal: HostSignal) -> bool {
    signal is ExitRequested || signal is Exit || signal is CloseRequested
}

/// The effect of a signal on a slot holding `state` whose lock was
/// acquired: the content afterwards, and the handle to terminate.
pub open spec fn shutdown_step<H>(state: Option<H>, signal: HostSignal) -> (Option<H>, Option<H>) {
    if begins_shutdown(signal) {
        (None, state)
    } else {
        (state, None)
    }
}

/// Whether `signal` makes the supervisor stop the helper.
pub fn should_stop_sidecar(signal: HostSignal) -> (stop: bool)
    ensures
        stop == begins_shutdown(signal),
{
    match signal {
        HostSignal::ExitRequested | HostSignal::Exit | HostSignal::CloseRequested => true,
        HostSignal::Other => false,
    }
}

/// Decides, from the outcome of creating the data directory, whether the
/// helper is spawned. A failure to create the directory ends startup with
/// its message and no spawn request; otherwise the request made of `config`
/// is returned.
pub fn plan_spawn(
    config: &SupervisorConfig,
    directory: Result<(), String>,
) -> (plan: Result<SpawnRequest, StartupError>)
    ensures
        match directory {
            Ok(_) => plan is Ok && plan->Ok_0@ == spawn_request_of(config@),
            Err(message) => plan == Err::<SpawnRequest, StartupError>(
                StartupError::DirectoryCreation(message),
            ),
        },
{
    match directory {
        Ok(_) => Ok(config.spawn_request()),
        Err(message) => Err(StartupError::DirectoryCreation(message)),
    }
}

/// Takes the outcome of the spawn. A handle is stored in the slot at once;
/// a failure ends startup with its message and leaves the slot as it was.
/// `access` is the slot if its lock could be acquired: without it nothing
/// is stored, and that is no error.
pub fn store_spawned<H>(
    access: Option<&mut HandleSlot<H>>,
    spawned: Result<H, String>,
) -> (stored: Result<(), StartupError>)
    ensures
        match spawned {
            Ok(handle) => {
                &&& stored is Ok
                &&& access matches Some(slot) ==> final(slot)@ == Some(handle)
            },
            Err(message) => {
                &&& stored == Err::<(), StartupError>(StartupError::Spawn(message))
                &&& access matches Some(slot) ==> final(slot)@ == slot@
            },
        },
{
    match spawned {
        Ok(handle) => {
            HandleSlot::put_guarded(access, handle);
            Ok(())
        },
        Err(message) => Err(StartupError::Spawn(message)),
    }
}

/// The shutdown hook. On a signal that begins shutdown the handle is taken
/// out of the slot and returned, for the caller to terminate; on any other
/// signal, or when the slot is empty, nothing is returned and the slot is
/// left as it was. `access` is the slot if its lock could be acquired:
/// without it the hook does nothing.
pub fn shutdown_hook<H>(
    access: Option<&mut HandleSlot<H>>,
    signal: HostSignal,
) -> (to_terminate: Option<H>)
    ensures
        match access {
            Some(slot) => (final(slot)@, to_terminate) == shutdown_step(slot@, signal),
            None => to_terminate == None::<H>,
        },
{
    if should_stop_sidecar(signal) {
        HandleSlot::take_guarded(access)
    } else {
        None
    }
}

/// Two signals in succession never hand out one stored handle twice: after
/// a signal that begins shutdown the slot is empty, so the hook returns
/// nothing on the next signal, whatever it is, and leaves the slot empty.
pub proof fn lemma_shutdown_twice<H>(state: Option<H>, first: HostSignal, second: HostSignal)
    requires
        begins_shutdown(first),
    ensures
        shutdown_step(state, first) == (None::<H>, state),
        shutdown_step(shutdown_step(state, first).0, second) == (None::<H>, None::<H>),
{
}

} // verus!
