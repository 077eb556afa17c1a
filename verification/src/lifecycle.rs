//! The loop that keeps bringing about the desired audio state.
//!
//! Between two attempts the lifecycle decides whether to attempt, to wait for a
//! change or to pause, and what to report of itself.
use crate::ipc::StatusView;
use crate::service::{AudioReport, AudioState, DesiredAudio, ReportView, NO_DEVICE};
use crate::stream::{one_more, AttemptExit};
use vstd::arithmetic::power2::{lemma2_to64, lemma_pow2_strictly_increases, pow2};
use vstd::prelude::*;

verus! {

/// The exponent at which the pauses between attempts stop growing.
pub const MAX_BACKOFF_EXPONENT: u32 = 5;

/// The state of the lifecycle.
#[derive(Clone, Copy, Debug, PartialEq, Eq, Structural)]
pub struct Lifecycle {
    /// The number of attempts that failed in a row.
    pub reconnect_attempt: u32,
}

/// What the lifecycle does next.
#[derive(Debug)]
pub enum LifecycleStep {
    /// It ends with this last report.
    Stop(AudioReport),
    /// It reports, and waits until something changes.
    Wait(AudioReport),
    /// It reports, and attempts to stream.
    Attempt(AudioReport),
}

/// What the lifecycle does behind an attempt.
#[derive(Debug)]
pub enum AfterAttempt {
    /// It ends with this last report.
    Stop(AudioReport),
    /// It goes on at once.
    Continue,
    /// It reports, and goes on after a pause or once something changes.
    Pause { report: AudioReport, seconds: u64 },
}

/// What the lifecycle does behind a wait or a pause.
#[derive(Debug)]
pub enum AfterWait {
    /// It ends with this last report.
    Stop(AudioReport),
    /// It goes on.
    Continue,
}

/// What ends a wait or a pause.
#[derive(Clone, Copy, Debug, PartialEq, Eq, Structural)]
pub enum Wakeup {
    /// The pause is over.
    Elapsed,
    /// The desired state changed.
    DesiredChanged,
    /// Nobody states a desired state any more.
    DesiredClosed,
    /// The shutdown signal changed; nobody can signal any more, or this was
    /// signalled.
    ShutdownChanged { closed: bool, shutdown: bool },
    /// A mode request was served.
    ModeServed,
}

impl Wakeup {
    /// Whether the lifecycle ends here.
    pub open spec fn ends(self) -> bool {
        match self {
            Wakeup::DesiredClosed => true,
            Wakeup::ShutdownChanged { closed, shutdown } => closed || shutdown,
            _ => false,
        }
    }

    /// Whether the user has asked for something.
    pub open spec fn is_request(self) -> bool {
        self == Wakeup::DesiredChanged || self == Wakeup::ModeServed
    }
}

/// The pause after a number of attempts that failed in a row: 1, 2, 4, 8, 16 and
/// from then on 32 seconds.
pub open spec fn pause_after(attempts: u32) -> nat {
    pow2(
        if attempts == 0 {
            0
        } else if attempts - 1 < MAX_BACKOFF_EXPONENT {
            (attempts - 1) as nat
        } else {
            MAX_BACKOFF_EXPONENT as nat
        },
    )
}

fn pause_seconds(attempts: u32) -> (seconds: u64)
    ensures
        seconds == pause_after(attempts),
{
    proof {
        lemma2_to64();
    }
    match attempts.saturating_sub(1) {
        0 => 1,
        1 => 2,
        2 => 4,
        3 => 8,
        4 => 16,
        _ => 32,
    }
}

impl Default for Lifecycle {
    /// A lifecycle in which nothing has failed yet.
    fn default() -> (lifecycle: Lifecycle)
        ensures
            lifecycle.reconnect_attempt == 0,
    {
        Lifecycle { reconnect_attempt: 0 }
    }
}

impl Lifecycle {
    /// The report of a lifecycle that has ended, or of a microphone that is off.
    pub fn idle_report() -> (report: AudioReport)
        ensures
            report@ == ReportView::idle(),
    {
        AudioReport { state: AudioState::Idle, mic_active: false, reconnect_attempt: 0, error: None }
    }

    /// Decides what comes next for the latest desired state.
    ///
    /// A microphone that is off is idle, and its failures are forgotten. One that
    /// has no device is in error. Every other one is attempted.
    pub fn poll(&mut self, shutdown: bool, desired: &DesiredAudio) -> (step: LifecycleStep)
        ensures
            final(self).reconnect_attempt == (if !shutdown && !desired.enabled {
                0
            } else {
                old(self).reconnect_attempt
            }),
            if shutdown {
                step matches LifecycleStep::Stop(report) && report@ == ReportView::idle()
            } else if !desired.enabled {
                step matches LifecycleStep::Wait(report) && report@ == ReportView::idle()
            } else if desired.address@.len() == 0 {
                step matches LifecycleStep::Wait(report) && report.state == AudioState::Error
                    && !report.mic_active && report.reconnect_attempt == 0
                    && crate::text::text_option(report.error) == Some(NO_DEVICE@)
            } else {
                step matches LifecycleStep::Attempt(report) && report.state
                    == AudioState::Connecting && !report.mic_active && report.reconnect_attempt
                    == old(self).reconnect_attempt && report.error is None
            },
    {
        if shutdown {
            return LifecycleStep::Stop(Lifecycle::idle_report());
        }
        if !desired.enabled {
            self.reconnect_attempt = 0;
            return LifecycleStep::Wait(Lifecycle::idle_report());
        }
        if desired.address.as_str().is_empty() {
            return LifecycleStep::Wait(
                AudioReport {
                    state: AudioState::Error,
                    mic_active: false,
                    reconnect_attempt: 0,
                    error: Some(NO_DEVICE.to_owned()),
                },
            );
        }
        LifecycleStep::Attempt(
            AudioReport {
                state: AudioState::Connecting,
                mic_active: false,
                reconnect_attempt: self.reconnect_attempt,
                error: None,
            },
        )
    }

    /// Decides what follows an attempt. A failure is counted and leads to a pause; a
    /// change of the desired state forgets the failures.
    pub fn attempt_finished(&mut self, exit: AttemptExit) -> (next: AfterAttempt)
        ensures
            match exit {
                AttemptExit::Shutdown => {
                    &&& next matches AfterAttempt::Stop(report) && report@ == ReportView::idle()
                    &&& *final(self) == *old(self)
                },
                AttemptExit::Reconfigure => next is Continue && final(self).reconnect_attempt == 0,
                AttemptExit::Failed(error) => {
                    &&& final(self).reconnect_attempt == one_more(
                        old(self).reconnect_attempt,
                    )
                    &&& next matches AfterAttempt::Pause { report, seconds } && report.state
                        == AudioState::Recovering && !report.mic_active && report.reconnect_attempt
                        == final(self).reconnect_attempt && report.error == Some(error) && seconds
                        == pause_after(final(self).reconnect_attempt)
                },
            },
    {
        match exit {
            AttemptExit::Shutdown => AfterAttempt::Stop(Lifecycle::idle_report()),
            AttemptExit::Reconfigure => {
                self.reconnect_attempt = 0;
                AfterAttempt::Continue
            },
            AttemptExit::Failed(error) => {
                self.reconnect_attempt = self.reconnect_attempt.saturating_add(1);
                AfterAttempt::Pause {
                    report: AudioReport {
                        state: AudioState::Recovering,
                        mic_active: false,
                        reconnect_attempt: self.reconnect_attempt,
                        error: Some(error),
                    },
                    seconds: pause_seconds(self.reconnect_attempt),
                }
            },
        }
    }

    /// Ends a pause. What the user asks for forgets the failures.
    pub fn pause_ended(&mut self, wakeup: Wakeup) -> (next: AfterWait)
        ensures
            if wakeup.ends() {
                next matches AfterWait::Stop(report) && report@ == ReportView::idle()
            } else {
                next is Continue
            },
            final(self).reconnect_attempt == (if wakeup.is_request() {
                0
            } else {
                old(self).reconnect_attempt
            }),
    {
        match wakeup {
            Wakeup::DesiredChanged => {
                self.reconnect_attempt = 0;
            },
            Wakeup::ModeServed => {
                self.reconnect_attempt = 0;
            },
            _ => {},
        }
        Lifecycle::wait_for_action(wakeup)
    }

    /// Ends a wait.
    pub fn wait_for_action(wakeup: Wakeup) -> (next: AfterWait)
        ensures
            if wakeup.ends() {
                next matches AfterWait::Stop(report) && report@ == ReportView::idle()
            } else {
                next is Continue
            },
    {
        let ends = match wakeup {
            Wakeup::DesiredClosed => true,
            Wakeup::ShutdownChanged { closed, shutdown } => closed || shutdown,
            _ => false,
        };
        if ends {
            AfterWait::Stop(Lifecycle::idle_report())
        } else {
            AfterWait::Continue
        }
    }
}

/// Every end of the lifecycle leaves an idle status: each of them comes with a report
/// that says so, and no error is forgotten over it.
pub proof fn law_the_last_status_is_idle(status: StatusView)
    ensures
        ({
            let last = status.reported(ReportView::idle());
            &&& last.state == "idle"@
            &&& !last.mic_active
            &&& last.reconnect_attempt == 0
            &&& last.last_error == status.last_error
        }),
{
}

/// The number that stands after a number of failures in a row.
pub open spec fn failures_in_a_row(n: nat) -> u32
    decreases n,
{
    if n == 0 {
        0
    } else {
        one_more(failures_in_a_row((n - 1) as nat))
    }
}

proof fn lemma_failures_in_a_row(n: nat)
    ensures
        failures_in_a_row(n) == if n <= u32::MAX {
            n
        } else {
            u32::MAX as nat
        },
    decreases n,
{
    if n > 0 {
        lemma_failures_in_a_row((n - 1) as nat);
    }
}

/// The pauses after failures in a row are 1, 2, 4, 8, 16 and from then on 32
/// seconds.
pub proof fn law_pauses_double(failures: nat)
    requires
        failures > 0,
    ensures
        pause_after(failures_in_a_row(1)) == 1,
        failures < 6 ==> pause_after(failures_in_a_row(failures + 1)) == 2 * pause_after(
            failures_in_a_row(failures),
        ),
        failures >= 6 ==> pause_after(failures_in_a_row(failures)) == 32,
{
    lemma2_to64();
    lemma_failures_in_a_row(1);
    lemma_failures_in_a_row(failures);
    lemma_failures_in_a_row(failures + 1);
}

/// No pause is shorter than a second or longer than 32 seconds, and more failures
/// never shorten it.
pub proof fn law_pauses_are_bounded(fewer: u32, more: u32)
    requires
        fewer <= more,
    ensures
        1 <= pause_after(fewer) <= pause_after(more) <= 32,
{
    lemma2_to64();
    if pause_after(fewer) != pause_after(more) {
        let low: nat = if fewer == 0 {
            0
        } else {
            (fewer - 1) as nat
        };
        let high: nat = if more - 1 < MAX_BACKOFF_EXPONENT {
            (more - 1) as nat
        } else {
            MAX_BACKOFF_EXPONENT as nat
        };
        lemma_pow2_strictly_increases(low, high);
    }
}

/// What comes next is decided by the shutdown, then by the switch, then by the device: a
/// shutdown ends the lifecycle, a microphone that is off waits idle and forgets its failures, one
/// without a device waits in error, and every other one is attempted, with its failures counted
/// on.
pub proof fn law_the_switch_and_the_device_decide(
    lifecycle: &mut Lifecycle,
    shutdown: bool,
    desired: &DesiredAudio,
    step: LifecycleStep,
)
    requires
        call_ensures(Lifecycle::poll, (lifecycle, shutdown, desired), step),
    ensures
        step is Stop <==> shutdown,
        step is Attempt <==> !shutdown && desired.enabled && desired.address@.len() > 0,
        step is Attempt ==> step->Attempt_0.state == AudioState::Connecting
            && !step->Attempt_0.mic_active
                && step->Attempt_0.reconnect_attempt == old(lifecycle).reconnect_attempt
                    && step->Attempt_0.error is None,
        step is Wait && !desired.enabled ==> step->Wait_0.state == AudioState::Idle
            && step->Wait_0.error is None && step->Wait_0.reconnect_attempt == 0
                && final(lifecycle).reconnect_attempt == 0,
        step is Wait && desired.enabled ==> step->Wait_0.state == AudioState::Error
            && step->Wait_0.error is Some,
        step is Wait ==> !step->Wait_0.mic_active,
        step is Stop ==> step->Stop_0.state == AudioState::Idle && !step->Stop_0.mic_active,
        shutdown || desired.enabled
            ==> final(lifecycle).reconnect_attempt == old(lifecycle).reconnect_attempt,
{
    if step is Wait {
        assert(step->Wait_0@.error is None || step->Wait_0.error is Some);
    }
}

/// A failed attempt is counted and followed by a pause that doubles: 1, 2, 4, 8, 16 and from the
/// sixth failure on 32 seconds. A changed wish begins to count anew and goes on at once, and a
/// shutdown ends the lifecycle.
pub proof fn law_failed_attempts_are_followed_by_growing_pauses(
    lifecycle: &mut Lifecycle,
    exit: AttemptExit,
    next: AfterAttempt,
)
    requires
        call_ensures(Lifecycle::attempt_finished, (lifecycle, exit), next),
    ensures
        exit is Shutdown <==> next is Stop,
        exit is Reconfigure <==> next is Continue,
        exit is Reconfigure ==> final(lifecycle).reconnect_attempt == 0,
        next is Stop ==> next->Stop_0.state == AudioState::Idle && !next->Stop_0.mic_active,
        exit matches AttemptExit::Failed(error) ==> next is Pause && next->report.state
            == AudioState::Recovering && !next->report.mic_active && next->report.error is Some
            && next->report.error->0@ == error@
                && next->report.reconnect_attempt == final(lifecycle).reconnect_attempt,
        exit is Failed
            && old(lifecycle).reconnect_attempt < u32::MAX
                ==> final(lifecycle).reconnect_attempt == old(lifecycle).reconnect_attempt + 1,
        exit is Failed ==> {
            let failures = old(lifecycle).reconnect_attempt;
            &&& failures == 0 ==> next->seconds == 1
            &&& failures == 1 ==> next->seconds == 2
            &&& failures == 2 ==> next->seconds == 4
            &&& failures == 3 ==> next->seconds == 8
            &&& failures == 4 ==> next->seconds == 16
            &&& failures >= 5 ==> next->seconds == 32
        },
{
    lemma2_to64();
}

/// A pause or a wait ends the lifecycle exactly where nobody states a wish any more or a shutdown
/// came; and failures are forgotten exactly where the user asked for something.
pub proof fn law_requests_forget_the_failures(
    lifecycle: &mut Lifecycle,
    wakeup: Wakeup,
    next: AfterWait,
    waited: AfterWait,
)
    requires
        call_ensures(Lifecycle::pause_ended, (lifecycle, wakeup), next),
        call_ensures(Lifecycle::wait_for_action, (wakeup,), waited),
    ensures
        next is Stop <==> wakeup == Wakeup::DesiredClosed || (wakeup is ShutdownChanged && (
        wakeup->closed || wakeup->shutdown)),
        waited is Stop <==> next is Stop,
        next is Stop ==> next->Stop_0.state == AudioState::Idle && !next->Stop_0.mic_active,
        waited is Stop ==> waited->Stop_0.state == AudioState::Idle && !waited->Stop_0.mic_active,
        wakeup == Wakeup::DesiredChanged || wakeup == Wakeup::ModeServed
            ==> final(lifecycle).reconnect_attempt == 0,
        wakeup != Wakeup::DesiredChanged
            && wakeup != Wakeup::ModeServed
                ==> final(lifecycle).reconnect_attempt == old(lifecycle).reconnect_attempt,
{
}

} // verus!
