//! The sensor acquisition layer: what the daemon decides about devices,
//! channels, triggers and buffers of the industrial I/O subsystem.

pub mod buffer;
pub mod channel;
pub mod discovery;
pub mod setup;
pub mod trigger;
pub mod types;

use crate::error::{Error, ErrorView};
use crate::iio::buffer::{
    last_timestamp_after, refill_timed_out, sample_of, sample_view, BufferPoller, BufferReading,
    ImuSample, SampleInterval,
};
use crate::iio::trigger::TriggerGuard;
use vstd::prelude::*;

verus! {

/// The poller for the selected device, with what it remembers between
/// samples.
#[derive(Debug, PartialEq, Eq)]
pub struct IioPoller {
    pub poller: BufferPoller,
    pub rate_hz: u32,
    /// Hardware timestamp of the last sample, in nanoseconds.
    pub last_timestamp_ns: Option<i64>,
    /// The timer trigger that the daemon created, where it created one.
    pub trigger_guard: Option<TriggerGuard>,
}

/// What follows an attempt to open the poller.
#[derive(Debug, Clone, PartialEq, Eq)]
pub enum OpenDecision {
    /// Create a trigger device, list the devices anew and attempt once more.
    CreateTriggerAndRetry,
    /// The failure is final.
    Fail(Error),
}

/// What follows an attempt to open the poller, by mathematical values.
pub enum OpenDecisionView {
    CreateTriggerAndRetry,
    Fail(ErrorView),
}

impl View for OpenDecision {
    type V = OpenDecisionView;

    open spec fn view(&self) -> OpenDecisionView {
        match self {
            OpenDecision::CreateTriggerAndRetry => OpenDecisionView::CreateTriggerAndRetry,
            OpenDecision::Fail(e) => OpenDecisionView::Fail(e@),
        }
    }
}

/// The policy for opening the poller: where no trigger exists, one is
/// created and the opening attempted once more; where there is still none,
/// the error says so; every other failure is final as it is.
pub open spec fn open_decision(failure: ErrorView, retried: bool) -> OpenDecisionView {
    if failure is IioTriggerNotFound {
        if retried {
            OpenDecisionView::Fail(
                ErrorView::InvalidState(
                    "no iio trigger devices found after attempting auto-creation"@,
                ),
            )
        } else {
            OpenDecisionView::CreateTriggerAndRetry
        }
    } else {
        OpenDecisionView::Fail(failure)
    }
}

impl IioPoller {
    /// Decides what follows a failed attempt to open the poller. `retried`
    /// says whether the attempt was the second, made after a trigger was
    /// created.
    pub fn open_best(failure: Error, retried: bool) -> (decision: OpenDecision)
        ensures
            decision@ == open_decision(failure@, retried),
    {
        match failure {
            Error::IioTriggerNotFound => {
                if retried {
                    OpenDecision::Fail(
                        Error::invalid_state(
                            "no iio trigger devices found after attempting auto-creation",
                        ),
                    )
                } else {
                    OpenDecision::CreateTriggerAndRetry
                }
            },
            other => OpenDecision::Fail(other),
        }
    }

    /// The poller of a device that was opened at `rate_hz` samples a
    /// second, with the guard of the trigger that was created for it.
    pub fn open_best_in_context(
        poller: BufferPoller,
        rate_hz: u32,
        trigger_guard: Option<TriggerGuard>,
    ) -> (opened: IioPoller)
        ensures
            opened == (IioPoller { poller, rate_hz, last_timestamp_ns: None, trigger_guard }),
    {
        IioPoller { poller, rate_hz, last_timestamp_ns: None, trigger_guard }
    }

    /// Makes a sample from what a refill of the buffer gave, and remembers
    /// its timestamp for the next.
    pub fn read_sample(&mut self, reading: &BufferReading) -> (sample: Result<ImuSample, Error>)
        ensures
            sample_view(sample) == sample_of(
                old(self).poller,
                *reading,
                refill_timed_out(*reading),
                old(self).rate_hz,
                old(self).last_timestamp_ns,
            ),
            final(self).last_timestamp_ns == last_timestamp_after(
                old(self).poller,
                *reading,
                old(self).last_timestamp_ns,
            ),
            final(self).poller == old(self).poller,
            final(self).rate_hz == old(self).rate_hz,
            final(self).trigger_guard == old(self).trigger_guard,
            sample matches Ok(s) ==> (s.dt matches SampleInterval::Measured(ns) ==> ns > 0),
    {
        self.poller.read_sample(reading, self.rate_hz, &mut self.last_timestamp_ns)
    }
}

} // verus!
