//! The setup of the acquisition buffer, one step at a time.
//!
//! The setup alternates hardware calls and decisions. The caller performs
//! each action on the hardware and reports what it gave; [`setup_step`]
//! decides what follows. The order is fixed: calibrate the channels, enable
//! them, take the first trigger of the list, write the sampling frequency to
//! every target, bind the trigger, create the buffer of one record, and
//! record whether the trigger is fired by hand.

use crate::error::{DeviceError, Error, ErrorView};
use crate::iio::buffer::{
    after_buffer_attempt, attempt_busy, attempt_failure, buffer_decision, check_enabled_channels,
    poller_of, BufferDecision, BufferDecisionView, BufferDetails, BufferDetailsView, BufferPoller,
    DeviceProbe, BUFFER_CAPACITY,
};
use crate::iio::trigger::{
    after_frequency_write, configure_sampling_frequency, failed_busy, failure_of,
    frequency_step, frequency_targets, frequency_value, select_trigger, selected_trigger,
    set_trigger, trigger_binding, FrequencyStep, FrequencyStepView, FrequencyTarget,
};
use crate::iio::types::DeviceInfo;
use crate::text::option_view;
use vstd::prelude::*;

verus! {

/// How far the setup has come.
#[derive(Debug, Clone, Copy, PartialEq, Eq, Structural)]
pub enum SetupPhase {
    /// Nothing is done yet.
    Start,
    /// The channels are being enabled.
    Enabling,
    /// The selected trigger is being looked at.
    Inspecting,
    /// The sampling frequency is being written.
    Frequency,
    /// The trigger is being bound to the device.
    Binding,
    /// The buffer is being created.
    Creating,
    /// The poller is ready.
    Done,
    /// The setup failed.
    Failed,
}

/// What the setup remembers between its steps.
#[derive(Debug, PartialEq, Eq)]
pub struct SetupState {
    pub phase: SetupPhase,
    /// Samples a second.
    pub rate_hz: u32,
    /// The calibrated channels, once they are calibrated.
    pub poller: Option<BufferPoller>,
    /// How many scan element channels are enabled.
    pub enabled_scan_inputs: usize,
    /// Position of the selected trigger in the list of devices.
    pub trigger: usize,
    pub trigger_name: Option<String>,
    /// Whether the selected trigger can be fired by hand.
    pub has_trigger_now: bool,
    /// Where the sampling frequency is written, and the target under way.
    pub targets: Vec<FrequencyTarget>,
    pub at: usize,
    /// Whether the creation of the buffer was attempted before.
    pub retried: bool,
}

/// Mathematical value of a [`SetupState`].
pub struct SetupStateView {
    pub phase: SetupPhase,
    pub rate_hz: u32,
    pub poller: Option<BufferPoller>,
    pub enabled_scan_inputs: usize,
    pub trigger: usize,
    pub trigger_name: Option<Seq<char>>,
    pub has_trigger_now: bool,
    pub targets: Seq<FrequencyTarget>,
    pub at: usize,
    pub retried: bool,
}

impl View for SetupState {
    type V = SetupStateView;

    open spec fn view(&self) -> SetupStateView {
        SetupStateView {
            phase: self.phase,
            rate_hz: self.rate_hz,
            poller: self.poller,
            enabled_scan_inputs: self.enabled_scan_inputs,
            trigger: self.trigger,
            trigger_name: option_view(self.trigger_name),
            has_trigger_now: self.has_trigger_now,
            targets: self.targets@,
            at: self.at,
            retried: self.retried,
        }
    }
}

/// What the hardware gave for the last action.
#[derive(Debug, PartialEq, Eq)]
pub enum SetupEvent {
    /// The setup begins for the selected device.
    Begin { discovered: DeviceProbe, rate_hz: u32 },
    /// The channels are enabled; the list of devices is at hand.
    ChannelsEnabled { enabled_scan_inputs: usize, devices: Vec<DeviceInfo> },
    /// The selected trigger was looked at, and with it which of trigger,
    /// device and enabled channels carry a sampling frequency.
    TriggerInspected {
        name: Option<String>,
        has_sampling_frequency: bool,
        has_trigger_now: bool,
        device_has_sampling_frequency: bool,
        channels_have_sampling_frequency: Vec<bool>,
    },
    /// The write that was asked for is over; this is what its last attempt
    /// gave.
    Written(Result<(), DeviceError>),
    /// The creation of the buffer was attempted.
    BufferAttempted {
        failure: Option<DeviceError>,
        device_id: Option<String>,
        device_name: Option<String>,
        sample_size: Option<usize>,
    },
    /// A fallback of a write could not be carried out.
    RecoveryFailed(Error),
}

/// What the caller is to do next.
#[derive(Debug, PartialEq, Eq)]
pub enum SetupAction {
    /// Disable every scan element input, then enable the channels at these
    /// positions, in this order.
    EnableChannels(Vec<usize>),
    /// Look at the trigger at this position in the list of devices.
    InspectTrigger(usize),
    /// Write the sampling frequency to the target.
    WriteFrequency { target: FrequencyTarget, value: i64 },
    /// Bind the trigger at this position to the device.
    BindTrigger(usize),
    /// Create the buffer for so many records, after disabling the device's
    /// buffer where that is asked.
    CreateBuffer { capacity: usize, disable_first: bool },
    /// The setup is complete: this is the poller.
    Finish(BufferPoller),
    /// The setup failed with this error.
    Fail(Error),
}

/// Mathematical value of a [`SetupAction`].
pub enum SetupActionView {
    EnableChannels(Seq<usize>),
    InspectTrigger(usize),
    WriteFrequency { target: FrequencyTarget, value: i64 },
    BindTrigger(usize),
    CreateBuffer { capacity: usize, disable_first: bool },
    Finish(BufferPoller),
    Fail(ErrorView),
}

impl View for SetupAction {
    type V = SetupActionView;

    open spec fn view(&self) -> SetupActionView {
        match self {
            SetupAction::EnableChannels(channels) => SetupActionView::EnableChannels(channels@),
            SetupAction::InspectTrigger(trigger) => SetupActionView::InspectTrigger(*trigger),
            SetupAction::WriteFrequency { target, value } => SetupActionView::WriteFrequency {
                target: *target,
                value: *value,
            },
            SetupAction::BindTrigger(trigger) => SetupActionView::BindTrigger(*trigger),
            SetupAction::CreateBuffer { capacity, disable_first } => SetupActionView::CreateBuffer {
                capacity: *capacity,
                disable_first: *disable_first,
            },
            SetupAction::Finish(poller) => SetupActionView::Finish(*poller),
            SetupAction::Fail(e) => SetupActionView::Fail(e@),
        }
    }
}

/// A state that holds nothing, in the given phase.
pub open spec fn blank(phase: SetupPhase) -> SetupStateView {
    SetupStateView {
        phase,
        rate_hz: 0,
        poller: None,
        enabled_scan_inputs: 0,
        trigger: 0,
        trigger_name: None,
        has_trigger_now: false,
        targets: Seq::empty(),
        at: 0,
        retried: false,
    }
}

/// The setup fails with the error.
pub open spec fn fails(e: ErrorView) -> (SetupStateView, SetupActionView) {
    (blank(SetupPhase::Failed), SetupActionView::Fail(e))
}

/// The failure for an event that does not fit the state.
pub open spec fn out_of_order() -> (SetupStateView, SetupActionView) {
    fails(ErrorView::InvalidState("setup event does not fit the state"@))
}

/// What follows the beginning: the channels are calibrated and then enabled.
pub open spec fn plan_begin(state: SetupStateView, discovered: DeviceProbe, rate_hz: u32) -> (
    SetupStateView,
    SetupActionView,
) {
    if state.phase != SetupPhase::Start {
        out_of_order()
    } else {
        match poller_of(discovered, rate_hz) {
            Err(e) => fails(e),
            Ok(poller) => (
                SetupStateView {
                    phase: SetupPhase::Enabling,
                    rate_hz,
                    poller: Some(poller),
                    ..blank(SetupPhase::Enabling)
                },
                SetupActionView::EnableChannels(poller.enabled()),
            ),
        }
    }
}

/// What follows the enabling of the channels: the first trigger of the list
/// is taken; a list without trigger fails the setup before anything is
/// written.
pub open spec fn plan_enabled(
    state: SetupStateView,
    enabled_scan_inputs: usize,
    devices: Seq<DeviceInfo>,
) -> (SetupStateView, SetupActionView) {
    if state.phase != SetupPhase::Enabling || state.poller is None {
        out_of_order()
    } else {
        match selected_trigger(devices) {
            None => fails(ErrorView::IioTriggerNotFound),
            Some(trigger) => (
                SetupStateView {
                    phase: SetupPhase::Inspecting,
                    enabled_scan_inputs,
                    trigger,
                    ..state
                },
                SetupActionView::InspectTrigger(trigger),
            ),
        }
    }
}

/// The write of the sampling frequency to the target at `at`, or the
/// binding of the trigger where every target is written.
pub open spec fn plan_write(state: SetupStateView, at: int) -> (SetupStateView, SetupActionView) {
    if at < state.targets.len() {
        (
            SetupStateView { phase: SetupPhase::Frequency, at: at as usize, ..state },
            SetupActionView::WriteFrequency {
                target: state.targets[at],
                value: state.rate_hz as i64,
            },
        )
    } else {
        (
            SetupStateView { phase: SetupPhase::Binding, ..state },
            SetupActionView::BindTrigger(state.trigger),
        )
    }
}

/// What follows the look at the trigger: the sampling frequency is written
/// to trigger, device and enabled channels, in that order, each only where
/// it carries one.
pub open spec fn plan_inspected(
    state: SetupStateView,
    name: Option<Seq<char>>,
    has_sampling_frequency: bool,
    has_trigger_now: bool,
    device_has_sampling_frequency: bool,
    channels_have_sampling_frequency: Seq<bool>,
) -> (SetupStateView, SetupActionView) {
    if state.phase != SetupPhase::Inspecting || state.poller is None {
        out_of_order()
    } else {
        plan_write(
            SetupStateView {
                trigger_name: name,
                has_trigger_now,
                targets: frequency_targets(
                    Some(has_sampling_frequency),
                    device_has_sampling_frequency,
                    channels_have_sampling_frequency,
                ),
                ..state
            },
            0,
        )
    }
}

/// What follows a write. A write of the sampling frequency that failed ends
/// the setup; else the next target is written, and after the last the
/// trigger is bound. After the binding the buffer is created, provided that
/// a scan element channel is enabled.
pub open spec fn plan_written(state: SetupStateView, last: Result<(), DeviceError>) -> (
    SetupStateView,
    SetupActionView,
) {
    if state.poller is None {
        out_of_order()
    } else if state.phase == SetupPhase::Frequency && state.at < state.targets.len() {
        match frequency_step(state.targets, state.at as int, failure_of(last)) {
            FrequencyStepView::Fail(e) => fails(e),
            _ => plan_write(state, state.at + 1),
        }
    } else if state.phase == SetupPhase::Binding {
        match trigger_binding(state.trigger_name, failure_of(last), failed_busy(last)) {
            Err(e) => fails(e),
            Ok(_) => {
                if state.enabled_scan_inputs == 0 {
                    fails(
                        ErrorView::InvalidState(
                            "no scan element channels enabled; cannot create iio buffer"@,
                        ),
                    )
                } else {
                    (
                        SetupStateView { phase: SetupPhase::Creating, retried: false, ..state },
                        SetupActionView::CreateBuffer {
                            capacity: BUFFER_CAPACITY,
                            disable_first: false,
                        },
                    )
                }
            },
        }
    } else {
        out_of_order()
    }
}

/// What follows an attempt to create the buffer. Success completes the
/// setup, and the poller records that the trigger is fired by hand exactly
/// where the trigger can be; a busy device has its buffer disabled and the
/// creation attempted once more; any other failure ends the setup.
pub open spec fn plan_attempted(
    state: SetupStateView,
    failure: Option<DeviceError>,
    device_id: Option<Seq<char>>,
    device_name: Option<Seq<char>>,
    sample_size: Option<usize>,
) -> (SetupStateView, SetupActionView) {
    if state.phase != SetupPhase::Creating || state.poller is None {
        out_of_order()
    } else {
        match buffer_decision(
            state.retried,
            attempt_failure(failure),
            attempt_busy(failure),
            BufferDetailsView {
                device_id,
                device_name,
                trigger_name: state.trigger_name,
                enabled_scan_inputs: state.enabled_scan_inputs,
                sample_size,
            },
        ) {
            BufferDecisionView::Created => (
                blank(SetupPhase::Done),
                SetupActionView::Finish(
                    BufferPoller { sysfs_trigger: state.has_trigger_now, ..state.poller->0 },
                ),
            ),
            BufferDecisionView::DisableAndRetry => (
                SetupStateView { retried: true, ..state },
                SetupActionView::CreateBuffer { capacity: BUFFER_CAPACITY, disable_first: true },
            ),
            BufferDecisionView::Fail(e) => fails(e),
        }
    }
}

/// The next state and the action that follow an event.
pub open spec fn setup_plan(state: SetupStateView, event: SetupEvent) -> (
    SetupStateView,
    SetupActionView,
) {
    match event {
        SetupEvent::Begin { discovered, rate_hz } => plan_begin(state, discovered, rate_hz),
        SetupEvent::ChannelsEnabled { enabled_scan_inputs, devices } => plan_enabled(
            state,
            enabled_scan_inputs,
            devices@,
        ),
        SetupEvent::TriggerInspected {
            name,
            has_sampling_frequency,
            has_trigger_now,
            device_has_sampling_frequency,
            channels_have_sampling_frequency,
        } => plan_inspected(
            state,
            option_view(name),
            has_sampling_frequency,
            has_trigger_now,
            device_has_sampling_frequency,
            channels_have_sampling_frequency@,
        ),
        SetupEvent::Written(last) => plan_written(state, last),
        SetupEvent::BufferAttempted { failure, device_id, device_name, sample_size } => {
            plan_attempted(
                state,
                failure,
                option_view(device_id),
                option_view(device_name),
                sample_size,
            )
        },
        SetupEvent::RecoveryFailed(e) => fails(e@),
    }
}

fn empty_state(phase: SetupPhase) -> (state: SetupState)
    ensures
        state@ == blank(phase),
{
    let state = SetupState {
        phase,
        rate_hz: 0,
        poller: None,
        enabled_scan_inputs: 0,
        trigger: 0,
        trigger_name: None,
        has_trigger_now: false,
        targets: Vec::new(),
        at: 0,
        retried: false,
    };
    assert(state@.targets =~= Seq::<FrequencyTarget>::empty());
    state
}

fn failing(e: Error) -> (next: (SetupState, SetupAction))
    ensures
        (next.0@, next.1@) == fails(e@),
{
    (empty_state(SetupPhase::Failed), SetupAction::Fail(e))
}

fn unfitting() -> (next: (SetupState, SetupAction))
    ensures
        (next.0@, next.1@) == out_of_order(),
{
    failing(Error::invalid_state("setup event does not fit the state"))
}

fn writing(state: SetupState, at: usize) -> (next: (SetupState, SetupAction))
    ensures
        (next.0@, next.1@) == plan_write(state@, at as int),
{
    if at < state.targets.len() {
        let target = state.targets[at];
        let value = frequency_value(state.rate_hz);
        (SetupState { phase: SetupPhase::Frequency, at, ..state }, SetupAction::WriteFrequency {
            target,
            value,
        })
    } else {
        let trigger = state.trigger;
        (SetupState { phase: SetupPhase::Binding, ..state }, SetupAction::BindTrigger(trigger))
    }
}

/// A state in which nothing is done yet.
pub fn setup_start() -> (state: SetupState)
    ensures
        state@ == blank(SetupPhase::Start),
{
    empty_state(SetupPhase::Start)
}

/// Takes one step of the setup: from the state and what the hardware gave
/// for the last action, the next state and the next action.
pub fn setup_step(state: SetupState, event: SetupEvent) -> (next: (SetupState, SetupAction))
    requires
        event matches SetupEvent::Begin { rate_hz, .. } ==> rate_hz >= 1,
    ensures
        (next.0@, next.1@) == setup_plan(state@, event),
{
    match event {
        SetupEvent::RecoveryFailed(e) => failing(e),
        SetupEvent::Begin { discovered, rate_hz } => {
            match state.phase {
                SetupPhase::Start => {},
                _ => {
                    return unfitting();
                },
            }
            match BufferPoller::new(&discovered, rate_hz) {
                Err(e) => failing(e),
                Ok(poller) => {
                    let channels = poller.enabled_channels();
                    let mut next = empty_state(SetupPhase::Enabling);
                    next.rate_hz = rate_hz;
                    next.poller = Some(poller);
                    (next, SetupAction::EnableChannels(channels))
                },
            }
        },
        SetupEvent::ChannelsEnabled { enabled_scan_inputs, devices } => {
            match state.phase {
                SetupPhase::Enabling => {},
                _ => {
                    return unfitting();
                },
            }
            if state.poller.is_none() {
                return unfitting();
            }
            match select_trigger(&devices) {
                None => failing(Error::IioTriggerNotFound),
                Some(trigger) => (
                    SetupState {
                        phase: SetupPhase::Inspecting,
                        enabled_scan_inputs,
                        trigger,
                        ..state
                    },
                    SetupAction::InspectTrigger(trigger),
                ),
            }
        },
        SetupEvent::TriggerInspected {
            name,
            has_sampling_frequency,
            has_trigger_now,
            device_has_sampling_frequency,
            channels_have_sampling_frequency,
        } => {
            match state.phase {
                SetupPhase::Inspecting => {},
                _ => {
                    return unfitting();
                },
            }
            if state.poller.is_none() {
                return unfitting();
            }
            let targets = configure_sampling_frequency(
                Some(has_sampling_frequency),
                device_has_sampling_frequency,
                &channels_have_sampling_frequency,
            );
            writing(SetupState { trigger_name: name, has_trigger_now, targets, ..state }, 0)
        },
        SetupEvent::Written(last) => {
            if state.poller.is_none() {
                return unfitting();
            }
            match state.phase {
                SetupPhase::Frequency => {
                    if state.at >= state.targets.len() {
                        return unfitting();
                    }
                    match after_frequency_write(&state.targets, state.at, &last) {
                        FrequencyStep::Fail(e) => failing(e),
                        _ => {
                            let at = state.at + 1;
                            writing(state, at)
                        },
                    }
                },
                SetupPhase::Binding => {
                    let name = match &state.trigger_name {
                        Some(name) => Some(name.clone()),
                        None => None,
                    };
                    match set_trigger(name, Some(last)) {
                        Err(e) => failing(e),
                        Ok(_) => match check_enabled_channels(state.enabled_scan_inputs) {
                            Err(e) => failing(e),
                            Ok(_) => (
                                SetupState { phase: SetupPhase::Creating, retried: false, ..state },
                                SetupAction::CreateBuffer {
                                    capacity: BUFFER_CAPACITY,
                                    disable_first: false,
                                },
                            ),
                        },
                    }
                },
                _ => unfitting(),
            }
        },
        SetupEvent::BufferAttempted { failure, device_id, device_name, sample_size } => {
            match state.phase {
                SetupPhase::Creating => {},
                _ => {
                    return unfitting();
                },
            }
            if state.poller.is_none() {
                return unfitting();
            }
            let details = BufferDetails {
                device_id,
                device_name,
                trigger_name: match &state.trigger_name {
                    Some(name) => Some(name.clone()),
                    None => None,
                },
                enabled_scan_inputs: state.enabled_scan_inputs,
                sample_size,
            };
            match after_buffer_attempt(state.retried, failure, &details) {
                BufferDecision::Created => match state.poller {
                    Some(poller) => (
                        empty_state(SetupPhase::Done),
                        SetupAction::Finish(
                            BufferPoller { sysfs_trigger: state.has_trigger_now, ..poller },
                        ),
                    ),
                    None => unfitting(),
                },
                BufferDecision::DisableAndRetry => (
                    SetupState { retried: true, ..state },
                    SetupAction::CreateBuffer { capacity: BUFFER_CAPACITY, disable_first: true },
                ),
                BufferDecision::Fail(e) => failing(e),
            }
        },
    }
}

/// The state and the actions after a run of events, one step for each.
pub open spec fn setup_run(state: SetupStateView, events: Seq<SetupEvent>) -> (
    SetupStateView,
    Seq<SetupActionView>,
)
    decreases events.len(),
{
    if events.len() == 0 {
        (state, Seq::empty())
    } else {
        let (before, actions) = setup_run(state, events.drop_last());
        let (next, action) = setup_plan(before, events.last());
        (next, actions.push(action))
    }
}

/// So many writes, each of which succeeded.
pub open spec fn writes_succeed(n: nat) -> Seq<SetupEvent> {
    Seq::new(n, |i: int| SetupEvent::Written(Ok(())))
}

/// Once the setup has ended, well or not, every further event only fails:
/// nothing more is written, bound or created.
pub proof fn lemma_ended_setup_stays_ended(state: SetupStateView, event: SetupEvent)
    requires
        state == blank(SetupPhase::Failed) || state == blank(SetupPhase::Done),
    ensures
        setup_plan(state, event).1 is Fail,
        setup_plan(state, event).0 == blank(SetupPhase::Failed),
{
}

/// A list without trigger fails the setup with the error that names the
/// missing trigger, and the only action before it is the enabling of the
/// channels: no frequency is written, no trigger bound, no buffer created.
pub proof fn lemma_no_trigger_fails(
    discovered: DeviceProbe,
    rate_hz: u32,
    enabled_scan_inputs: usize,
    devices: Vec<DeviceInfo>,
)
    requires
        poller_of(discovered, rate_hz) is Ok,
        forall|j: int| 0 <= j < devices@.len() ==> !(#[trigger] devices@[j]).is_trigger,
    ensures
        ({
            let begun = setup_plan(
                blank(SetupPhase::Start),
                SetupEvent::Begin { discovered, rate_hz },
            );
            let enabled = setup_plan(
                begun.0,
                SetupEvent::ChannelsEnabled { enabled_scan_inputs, devices },
            );
            &&& begun.1 == SetupActionView::EnableChannels((poller_of(discovered, rate_hz)->Ok_0).enabled())
            &&& enabled == fails(ErrorView::IioTriggerNotFound)
        }),
{
    assert forall|k: int| !crate::iio::trigger::first_trigger(devices@, k) by {
        if 0 <= k < devices@.len() {
            assert(!devices@[k].is_trigger);
        }
    }
}

/// A write of the sampling frequency that failed ends the setup with that
/// failure; by [`lemma_ended_setup_stays_ended`] no later target is written.
pub proof fn lemma_frequency_failure_ends(state: SetupStateView, e: DeviceError)
    requires
        state.phase == SetupPhase::Frequency,
        state.poller is Some,
        state.at < state.targets.len(),
    ensures
        setup_plan(state, SetupEvent::Written(Err(e))) == fails(ErrorView::Iio(e@)),
{
}

/// While the writes of the sampling frequency succeed, the targets are
/// written one after the other, and after the last the trigger is bound.
pub proof fn lemma_frequency_writes(state: SetupStateView, n: nat)
    requires
        state.phase == SetupPhase::Frequency,
        state.poller is Some,
        state.at < state.targets.len(),
        state.at + n <= state.targets.len(),
        state.targets.len() <= usize::MAX,
    ensures
        state.at + n < state.targets.len() ==> setup_run(state, writes_succeed(n)).0 == (
            SetupStateView { at: (state.at + n) as usize, ..state }),
        n >= 1 ==> setup_run(state, writes_succeed(n)).1.last() == plan_write(
            SetupStateView { at: (state.at + n - 1) as usize, ..state },
            state.at + n,
        ).1,
        state.at + n == state.targets.len() ==> setup_run(state, writes_succeed(n)).0 == (
            SetupStateView {
                phase: SetupPhase::Binding,
                at: (state.targets.len() - 1) as usize,
                ..state
            }) && setup_run(state, writes_succeed(n)).1.last() == SetupActionView::BindTrigger(
            state.trigger,
        ),
    decreases n,
{
    if n == 0 {
        assert(writes_succeed(0).len() == 0);
    } else {
        let events = writes_succeed(n);
        assert(events.drop_last() == writes_succeed((n - 1) as nat));
        assert(events.last() == SetupEvent::Written(Ok(())));
        lemma_frequency_writes(state, (n - 1) as nat);
        let before = setup_run(state, writes_succeed((n - 1) as nat)).0;
        assert(before == SetupStateView { at: (state.at + n - 1) as usize, ..state });
        assert(setup_run(state, events).0 == setup_plan(before, events.last()).0);
    }
}

/// A setup in which every write and the creation of the buffer succeed ends
/// with the poller: the channels that were calibrated are enabled in their
/// order, the trigger is the first of the list, the frequency is written to
/// every target, the buffer holds one record, and the poller records that
/// the trigger is fired by hand exactly where the trigger can be.
pub proof fn lemma_setup_succeeds(
    discovered: DeviceProbe,
    rate_hz: u32,
    enabled_scan_inputs: usize,
    devices: Vec<DeviceInfo>,
    name: Option<String>,
    has_sampling_frequency: bool,
    has_trigger_now: bool,
    device_has_sampling_frequency: bool,
    channels_have_sampling_frequency: Vec<bool>,
    device_id: Option<String>,
    device_name: Option<String>,
    sample_size: Option<usize>,
)
    requires
        poller_of(discovered, rate_hz) is Ok,
        selected_trigger(devices@) is Some,
        enabled_scan_inputs > 0,
        frequency_targets(
            Some(has_sampling_frequency),
            device_has_sampling_frequency,
            channels_have_sampling_frequency@,
        ).len() <= usize::MAX,
    ensures
        ({
            let poller = poller_of(discovered, rate_hz)->Ok_0;
            let trigger = selected_trigger(devices@)->0;
            let targets = frequency_targets(
                Some(has_sampling_frequency),
                device_has_sampling_frequency,
                channels_have_sampling_frequency@,
            );
            let begun = setup_plan(
                blank(SetupPhase::Start),
                SetupEvent::Begin { discovered, rate_hz },
            );
            let enabled = setup_plan(
                begun.0,
                SetupEvent::ChannelsEnabled { enabled_scan_inputs, devices },
            );
            let inspected = setup_plan(
                enabled.0,
                SetupEvent::TriggerInspected {
                    name,
                    has_sampling_frequency,
                    has_trigger_now,
                    device_has_sampling_frequency,
                    channels_have_sampling_frequency,
                },
            );
            let written = setup_run(inspected.0, writes_succeed(targets.len()));
            let bound = setup_plan(written.0, SetupEvent::Written(Ok(())));
            let created = setup_plan(
                bound.0,
                SetupEvent::BufferAttempted { failure: None, device_id, device_name, sample_size },
            );
            &&& begun.1 == SetupActionView::EnableChannels(poller.enabled())
            &&& crate::iio::trigger::first_trigger(devices@, trigger as int)
            &&& enabled.1 == SetupActionView::InspectTrigger(trigger)
            &&& targets.len() > 0 ==> inspected.1 == (SetupActionView::WriteFrequency {
                target: targets[0],
                value: rate_hz as i64,
            }) && written.1.last() == SetupActionView::BindTrigger(trigger)
            &&& targets.len() == 0 ==> inspected.1 == SetupActionView::BindTrigger(trigger)
            &&& written.0.phase == SetupPhase::Binding
            &&& bound.1 == (SetupActionView::CreateBuffer {
                capacity: BUFFER_CAPACITY,
                disable_first: false,
            })
            &&& created.0 == blank(SetupPhase::Done)
            &&& created.1 == SetupActionView::Finish(
                BufferPoller { sysfs_trigger: has_trigger_now, ..poller },
            )
        }),
{
    let trigger = selected_trigger(devices@)->0;
    let k = choose|k: int| crate::iio::trigger::first_trigger(devices@, k);
    assert(crate::iio::trigger::first_trigger(devices@, k));
    assert(0 <= k < devices.len());
    assert(trigger as int == k);
    let targets = frequency_targets(
        Some(has_sampling_frequency),
        device_has_sampling_frequency,
        channels_have_sampling_frequency@,
    );
    let begun = setup_plan(blank(SetupPhase::Start), SetupEvent::Begin { discovered, rate_hz });
    let enabled = setup_plan(begun.0, SetupEvent::ChannelsEnabled { enabled_scan_inputs, devices });
    let inspected = setup_plan(
        enabled.0,
        SetupEvent::TriggerInspected {
            name,
            has_sampling_frequency,
            has_trigger_now,
            device_has_sampling_frequency,
            channels_have_sampling_frequency,
        },
    );
    if targets.len() > 0 {
        lemma_frequency_writes(inspected.0, targets.len());
    } else {
        assert(writes_succeed(0).len() == 0);
    }
}

} // verus!
