//! Decisions of the plugin host: the plugin's lifecycle, callback handling and thread checks.

use vstd::prelude::*;

verus! {

/// The plugin's current lifecycle state.
#[derive(Clone, Copy, PartialEq, Eq, Structural, Debug)]
pub enum PluginStatus {
    Uninitialized,
    Initializing,
    Deactivated,
    Activating,
    Activated,
    Processing,
}

impl Default for PluginStatus {
    /// A plugin starts uninitialized.
    fn default() -> (r: PluginStatus)
        ensures
            r == PluginStatus::Uninitialized,
    {
        PluginStatus::Uninitialized
    }
}

impl PluginStatus {
    /// The position of the state in the lifecycle, from uninitialized to processing.
    pub open spec fn spec_rank(self) -> u8 {
        match self {
            PluginStatus::Uninitialized => 0,
            PluginStatus::Initializing => 1,
            PluginStatus::Deactivated => 2,
            PluginStatus::Activating => 3,
            PluginStatus::Activated => 4,
            PluginStatus::Processing => 5,
        }
    }

    /// The position of the state in the lifecycle, from uninitialized to processing.
    pub fn rank(self) -> (r: u8)
        ensures
            r == self.spec_rank(),
    {
        match self {
            PluginStatus::Uninitialized => 0,
            PluginStatus::Initializing => 1,
            PluginStatus::Deactivated => 2,
            PluginStatus::Activating => 3,
            PluginStatus::Activated => 4,
            PluginStatus::Processing => 5,
        }
    }

    /// Whether the plugin is activated, processing or not.
    pub fn is_active(self) -> (r: bool)
        ensures
            r == (self is Activated || self is Processing),
    {
        match self {
            PluginStatus::Activated | PluginStatus::Processing => true,
            _ => false,
        }
    }
}

/// Why initializing a plugin failed.
#[derive(Clone, Copy, PartialEq, Eq, Structural, Debug)]
pub enum InitError {
    /// `clap_plugin::init()` returned false.
    Refused,
    /// `clap_plugin::on_main_thread` is null.
    NoMainThreadCallback,
}

/// The status after `clap_plugin::init()` returned `result`, and whether initializing worked.
/// A plugin that refuses goes back to uninitialized; one without an `on_main_thread` function
/// stays initializing.
pub fn after_init(result: bool, has_on_main_thread: bool) -> (r: (PluginStatus, Result<(), InitError>))
    ensures
        !result ==> r == (PluginStatus::Uninitialized, Err::<(), InitError>(InitError::Refused)),
        result && !has_on_main_thread ==> r == (
            PluginStatus::Initializing,
            Err::<(), InitError>(InitError::NoMainThreadCallback),
        ),
        result && has_on_main_thread ==> r == (PluginStatus::Deactivated, Ok::<(), InitError>(())),
{
    if result {
        if has_on_main_thread {
            (PluginStatus::Deactivated, Ok(()))
        } else {
            (PluginStatus::Initializing, Err(InitError::NoMainThreadCallback))
        }
    } else {
        (PluginStatus::Uninitialized, Err(InitError::Refused))
    }
}

/// The number of times the host activates a plugin that keeps asking for a restart.
pub const MAX_ACTIVATION_ATTEMPTS: u32 = 10;

/// What the host does after one `clap_plugin::activate()` call.
#[derive(Clone, Copy, PartialEq, Eq, Structural, Debug)]
pub enum ActivationStep {
    /// The plugin refused to activate; it is deactivated again and activation failed.
    Refused,
    /// The plugin is activated and did not ask for a restart.
    Done,
    /// The plugin asked for a restart: deactivate it and activate it again.
    Restart,
    /// The plugin asked for a restart on the last attempt: it seems stuck in a loop.
    Stuck,
}

/// The host's decision after an activation attempt, where `attempts_left` counts the attempts
/// still allowed after this one.
pub fn activation_step(attempts_left: u32, activated: bool, restart_requested: bool) -> (r: ActivationStep)
    ensures
        !activated ==> r == ActivationStep::Refused,
        activated && !restart_requested ==> r == ActivationStep::Done,
        activated && restart_requested && attempts_left == 0 ==> r == ActivationStep::Stuck,
        activated && restart_requested && attempts_left > 0 ==> r == ActivationStep::Restart,
{
    if !activated {
        ActivationStep::Refused
    } else if !restart_requested {
        ActivationStep::Done
    } else if attempts_left == 0 {
        ActivationStep::Stuck
    } else {
        ActivationStep::Restart
    }
}

/// The status a plugin has after an activation step.
pub fn status_after_activation_step(step: ActivationStep) -> (r: PluginStatus)
    ensures
        step is Refused ==> r == PluginStatus::Deactivated,
        step is Done || step is Stuck ==> r == PluginStatus::Activated,
        step is Restart ==> r == PluginStatus::Deactivated,
{
    match step {
        ActivationStep::Refused | ActivationStep::Restart => PluginStatus::Deactivated,
        ActivationStep::Done | ActivationStep::Stuck => PluginStatus::Activated,
    }
}

/// Tasks sent to the main thread while it waits for callbacks.
#[derive(Clone, Copy, PartialEq, Eq, Structural, Debug)]
pub enum CallbackTask {
    /// Check the plugin instances for outstanding callbacks.
    Poll,
    /// Stop blocking.
    Stop,
}

/// Whether the main thread stops waiting after the tasks it received in one round: it stops as
/// soon as one of them asks it to.
pub fn should_stop(tasks: &Vec<CallbackTask>) -> (r: bool)
    ensures
        r == exists|i: int| 0 <= i < tasks@.len() && tasks@[i] == CallbackTask::Stop,
{
    let mut i: usize = 0;
    while i < tasks.len()
        invariant
            i <= tasks@.len(),
            forall|j: int| 0 <= j < i ==> tasks@[j] != CallbackTask::Stop,
        decreases tasks.len() - i,
    {
        if tasks[i] == CallbackTask::Stop {
            return true;
        }
        i = i + 1;
    }
    false
}

/// The number of rounds of `on_main_thread()` calls the host makes for callbacks that request
/// further callbacks.
pub const MAX_CALLBACK_ROUNDS: u32 = 10;

/// What the host does after a round of main-thread callbacks.
#[derive(Clone, Copy, PartialEq, Eq, Structural, Debug)]
pub enum CallbackRound {
    /// No plugin asked for a callback: done.
    Idle,
    /// Some plugin asked again: run another round.
    Again,
    /// Too many rounds in a row: give up with a warning.
    GiveUp,
}

/// The host's decision after callback round `round` (counted from zero), where `handled` says
/// whether any callback was made in it.
pub fn callback_round(round: u32, handled: bool) -> (r: CallbackRound)
    ensures
        !handled ==> r == CallbackRound::Idle,
        handled && round + 1 < MAX_CALLBACK_ROUNDS ==> r == CallbackRound::Again,
        handled && round + 1 >= MAX_CALLBACK_ROUNDS ==> r == CallbackRound::GiveUp,
{
    if !handled {
        CallbackRound::Idle
    } else if round < MAX_CALLBACK_ROUNDS - 1 {
        CallbackRound::Again
    } else {
        CallbackRound::GiveUp
    }
}

/// A host callback made from the wrong thread.
pub enum ThreadSafetyError {
    /// A main-thread function was called from another thread.
    NotMainThread { function: String },
    /// An audio-thread function was called from the main thread.
    AudioOnMainThread { function: String },
    /// An audio-thread function was called from an unknown thread.
    AudioOnUnknownThread { function: String },
    /// A function that audio threads may not call was called from one.
    ForbiddenOnAudioThread { function: String },
}

/// The first thread safety error made by the plugin, if any.
pub struct ThreadSafetyLog {
    first: Option<ThreadSafetyError>,
}

impl ThreadSafetyLog {
    /// The first error recorded, if any.
    pub closed spec fn spec_first(&self) -> Option<ThreadSafetyError> {
        self.first
    }

    /// A log without errors.
    pub fn new() -> (r: ThreadSafetyLog)
        ensures
            r.spec_first() is None,
    {
        ThreadSafetyLog { first: None }
    }

    /// Record `error` unless an earlier one is kept.
    fn record(&mut self, error: ThreadSafetyError)
        ensures
            final(self).spec_first() == if old(self).spec_first() is None {
                Some(error)
            } else {
                old(self).spec_first()
            },
    {
        if self.first.is_none() {
            self.first = Some(error);
        }
    }

    /// Check that a main-thread function is called from the main thread.
    pub fn assert_main_thread(&mut self, function: String, on_main_thread: bool)
        ensures
            final(self).spec_first() == if old(self).spec_first() is None && !on_main_thread {
                Some(ThreadSafetyError::NotMainThread { function })
            } else {
                old(self).spec_first()
            },
    {
        if !on_main_thread {
            self.record(ThreadSafetyError::NotMainThread { function });
        }
    }

    /// Check that an audio-thread function is called from an audio thread.
    pub fn assert_audio_thread(&mut self, function: String, on_audio_thread: bool, on_main_thread: bool)
        ensures
            final(self).spec_first() == if old(self).spec_first() is None && !on_audio_thread {
                if on_main_thread {
                    Some(ThreadSafetyError::AudioOnMainThread { function })
                } else {
                    Some(ThreadSafetyError::AudioOnUnknownThread { function })
                }
            } else {
                old(self).spec_first()
            },
    {
        if !on_audio_thread {
            if on_main_thread {
                self.record(ThreadSafetyError::AudioOnMainThread { function });
            } else {
                self.record(ThreadSafetyError::AudioOnUnknownThread { function });
            }
        }
    }

    /// Check that a function audio threads may not call is not called from one.
    pub fn assert_not_audio_thread(&mut self, function: String, on_audio_thread: bool)
        ensures
            final(self).spec_first() == if old(self).spec_first() is None && on_audio_thread {
                Some(ThreadSafetyError::ForbiddenOnAudioThread { function })
            } else {
                old(self).spec_first()
            },
    {
        if on_audio_thread {
            self.record(ThreadSafetyError::ForbiddenOnAudioThread { function });
        }
    }

    /// Hand out the first error, if any, and clear the log.
    pub fn check(&mut self) -> (r: Result<(), ThreadSafetyError>)
        ensures
            match old(self).spec_first() {
                Some(e) => r == Err::<(), ThreadSafetyError>(e),
                None => r is Ok,
            },
            final(self).spec_first() is None,
    {
        let mut first = None;
        std::mem::swap(&mut first, &mut self.first);
        match first {
            Some(e) => Err(e),
            None => Ok(()),
        }
    }
}

/// A lifecycle call the host makes on a plugin before or after processing.
#[derive(Clone, Copy, PartialEq, Eq, Structural, Debug)]
pub enum LifecycleAction {
    StopProcessing,
    Deactivate,
    Activate,
    StartProcessing,
}

/// The next call that brings a plugin toward processing. A pending restart request first takes
/// the plugin down to deactivated; then a deactivated plugin is activated and an activated one
/// starts processing. `None` once it is processing (with no restart pending), or when its state
/// allows none of these.
pub open spec fn spec_next_toward_processing(status: PluginStatus, restart_pending: bool) -> Option<LifecycleAction> {
    if restart_pending && status == PluginStatus::Processing {
        Some(LifecycleAction::StopProcessing)
    } else if restart_pending && status == PluginStatus::Activated {
        Some(LifecycleAction::Deactivate)
    } else if status == PluginStatus::Deactivated {
        Some(LifecycleAction::Activate)
    } else if status == PluginStatus::Activated {
        Some(LifecycleAction::StartProcessing)
    } else {
        None
    }
}

/// The next call toward processing; see [`spec_next_toward_processing`].
pub fn next_toward_processing(status: PluginStatus, restart_pending: bool) -> (r: Option<LifecycleAction>)
    ensures
        r == spec_next_toward_processing(status, restart_pending),
{
    if restart_pending && status == PluginStatus::Processing {
        Some(LifecycleAction::StopProcessing)
    } else if restart_pending && status == PluginStatus::Activated {
        Some(LifecycleAction::Deactivate)
    } else if status == PluginStatus::Deactivated {
        Some(LifecycleAction::Activate)
    } else if status == PluginStatus::Activated {
        Some(LifecycleAction::StartProcessing)
    } else {
        None
    }
}

/// The next call that brings a plugin down to deactivated: stop processing, then deactivate.
pub fn next_toward_deactivated(status: PluginStatus) -> (r: Option<LifecycleAction>)
    ensures
        r == if status == PluginStatus::Processing {
            Some(LifecycleAction::StopProcessing)
        } else if status == PluginStatus::Activated {
            Some(LifecycleAction::Deactivate)
        } else {
            None
        },
{
    if status == PluginStatus::Processing {
        Some(LifecycleAction::StopProcessing)
    } else if status == PluginStatus::Activated {
        Some(LifecycleAction::Deactivate)
    } else {
        None
    }
}

/// The status a successful lifecycle call leaves the plugin in.
pub open spec fn status_after(action: LifecycleAction) -> PluginStatus {
    match action {
        LifecycleAction::StopProcessing => PluginStatus::Activated,
        LifecycleAction::Deactivate => PluginStatus::Deactivated,
        LifecycleAction::Activate => PluginStatus::Activated,
        LifecycleAction::StartProcessing => PluginStatus::Processing,
    }
}

/// The status after at most `steps` calls toward processing, each succeeding; a pending
/// restart is handled once the plugin is deactivated.
pub open spec fn drive_toward_processing(status: PluginStatus, restart_pending: bool, steps: nat) -> PluginStatus
    decreases steps,
{
    if steps == 0 {
        status
    } else {
        match spec_next_toward_processing(status, restart_pending) {
            None => status,
            Some(action) => drive_toward_processing(
                status_after(action),
                restart_pending && status_after(action) != PluginStatus::Deactivated,
                (steps - 1) as nat,
            ),
        }
    }
}

/// A deactivated, activated or processing plugin, with every call succeeding, is processing
/// after at most four calls toward processing, whether or not a restart is pending.
pub proof fn lemma_reaches_processing(status: PluginStatus, restart_pending: bool)
    requires
        status == PluginStatus::Deactivated || status == PluginStatus::Activated || status
            == PluginStatus::Processing,
    ensures
        drive_toward_processing(status, restart_pending, 4) == PluginStatus::Processing,
{
    reveal_with_fuel(drive_toward_processing, 5);
}

} // verus!
