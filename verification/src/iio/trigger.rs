//! Triggers and the policy for writes to the hardware.
//!
//! A write to a device, a trigger or a channel may be refused. Where access
//! is denied the daemon raises its privileges and tries once more; where the
//! device is busy it disables the device's buffer and tries once more. What
//! still fails is fatal. The functions here decide the next move from what
//! the last attempt gave; the caller performs it.

use crate::error::{DeviceError, DeviceErrorView, Error, ErrorView};
use crate::iio::types::DeviceInfo;
use crate::text::{debug_option, debug_text, option_view};
use nix::errno::Errno;
use vstd::prelude::*;
use vstd::string::StringExecFns;

verus! {

/// Directory in which a timer trigger is created by making a subdirectory.
pub const HRTIMER_TRIGGER_BASE: &'static str = "/sys/kernel/config/iio/triggers/hrtimer";

/// Name of the timer trigger that the daemon creates for itself.
pub const DEFAULT_HRTIMER_TRIGGER: &'static str = "yured-hrtimer";

/// The error numbers that the daemon tells apart.
#[derive(Debug, Clone, Copy, PartialEq, Eq, Structural)]
pub enum ErrnoClass {
    Busy,
    TimedOut,
    AccessDenied,
    NotPermitted,
    Other,
}

/// What a failure means for the retry policy.
#[derive(Debug, Clone, Copy, PartialEq, Eq, Structural)]
pub enum FaultClass {
    /// The device is busy.
    Busy,
    /// The operation timed out.
    TimedOut,
    /// Access was denied, or the operation is not permitted.
    Access,
    /// Anything else.
    Other,
}

/// What `nix` makes of an error number, reduced to the errors that the
/// daemon tells apart. The table of error numbers is the platform's and is
/// not repeated here; the class is a function of the number alone.
pub uninterp spec fn errno_class_of(code: i32) -> ErrnoClass;

/// `nix::errno::Errno::from_raw`, with the result reduced to the error
/// numbers that the daemon tells apart: the class is the one that the
/// platform's table gives the number.
#[verifier::external_body]
fn errno_class(code: i32) -> (class: ErrnoClass)
    ensures
        class == errno_class_of(code),
{
    match Errno::from_raw(code) {
        Errno::EBUSY => ErrnoClass::Busy,
        Errno::ETIMEDOUT => ErrnoClass::TimedOut,
        Errno::EACCES => ErrnoClass::AccessDenied,
        Errno::EPERM => ErrnoClass::NotPermitted,
        _ => ErrnoClass::Other,
    }
}

/// What an error number means for the retry policy.
pub open spec fn fault_of_errno(class: ErrnoClass) -> FaultClass {
    match class {
        ErrnoClass::Busy => FaultClass::Busy,
        ErrnoClass::TimedOut => FaultClass::TimedOut,
        ErrnoClass::AccessDenied | ErrnoClass::NotPermitted => FaultClass::Access,
        ErrnoClass::Other => FaultClass::Other,
    }
}

/// What an error number means for the retry policy.
pub fn classify_errno(class: ErrnoClass) -> (fault: FaultClass)
    ensures
        fault == fault_of_errno(class),
{
    match class {
        ErrnoClass::Busy => FaultClass::Busy,
        ErrnoClass::TimedOut => FaultClass::TimedOut,
        ErrnoClass::AccessDenied | ErrnoClass::NotPermitted => FaultClass::Access,
        ErrnoClass::Other => FaultClass::Other,
    }
}

/// What a failure with the given error number means for the retry policy:
/// without a number it is of class `Other`; with one, the class is that of
/// the number.
pub open spec fn fault_of(os_code: Option<i32>) -> FaultClass {
    match os_code {
        Some(code) => fault_of_errno(errno_class_of(code)),
        None => FaultClass::Other,
    }
}

/// The class of the failure of an attempt, `None` where it succeeded.
pub open spec fn attempt_fault(attempt: Result<(), DeviceError>) -> Option<FaultClass> {
    match attempt {
        Ok(_) => None,
        Err(e) => Some(fault_of(e.os_code)),
    }
}

/// What a failure means for the retry policy. A failure without an error
/// number is of class `Other`; with one, the platform's numbering decides.
pub fn fault_class(err: &DeviceError) -> (fault: FaultClass)
    ensures
        fault == fault_of(err.os_code),
        err.os_code is None ==> fault == FaultClass::Other,
{
    match err.os_code {
        Some(code) => classify_errno(errno_class(code)),
        None => FaultClass::Other,
    }
}

/// Whether the failure says that the device is busy.
pub fn is_device_busy_error(err: &DeviceError) -> (busy: bool)
    ensures
        busy == (fault_of(err.os_code) is Busy),
        err.os_code is None ==> !busy,
{
    match fault_class(err) {
        FaultClass::Busy => true,
        _ => false,
    }
}

/// Whether the failure says that the operation timed out.
pub fn is_device_timeout_error(err: &DeviceError) -> (timed_out: bool)
    ensures
        timed_out == (fault_of(err.os_code) is TimedOut),
        err.os_code is None ==> !timed_out,
{
    match fault_class(err) {
        FaultClass::TimedOut => true,
        _ => false,
    }
}

/// Whether the failure says that access was denied or the operation is not
/// permitted.
pub fn is_device_access_error(err: &DeviceError) -> (denied: bool)
    ensures
        denied == (fault_of(err.os_code) is Access),
        err.os_code is None ==> !denied,
{
    match fault_class(err) {
        FaultClass::Access => true,
        _ => false,
    }
}

/// How far the fallbacks of one write have been used.
#[derive(Debug, Clone, Copy, PartialEq, Eq, Structural)]
pub enum WriteStage {
    /// No fallback was used yet.
    First,
    /// Privileges were raised before the last attempt.
    Escalated,
    /// The device's buffer was disabled before the last attempt.
    Unbuffered,
}

/// What to do before a write is attempted again.
#[derive(Debug, Clone, Copy, PartialEq, Eq, Structural)]
pub enum Recovery {
    /// Raise the process's privileges.
    Escalate,
    /// Disable the device's read buffer.
    DisableBuffer,
}

/// What follows an attempt to write.
#[derive(Debug, Clone, Copy, PartialEq, Eq, Structural)]
pub enum WriteDecision {
    /// The write succeeded.
    Done,
    /// Recover as said, then attempt the write again.
    Retry(Recovery),
    /// The failure is final.
    GiveUp,
}

impl WriteStage {
    /// Position of the stage in the order in which stages follow each other.
    pub open spec fn depth(self) -> nat {
        match self {
            WriteStage::First => 0,
            WriteStage::Escalated => 1,
            WriteStage::Unbuffered => 2,
        }
    }

    /// The stage of the attempt that follows a recovery.
    pub open spec fn after(recovery: Recovery) -> WriteStage {
        match recovery {
            Recovery::Escalate => WriteStage::Escalated,
            Recovery::DisableBuffer => WriteStage::Unbuffered,
        }
    }

    /// The stage of the attempt that follows a recovery.
    pub fn following(recovery: Recovery) -> (stage: WriteStage)
        ensures
            stage == WriteStage::after(recovery),
    {
        match recovery {
            Recovery::Escalate => WriteStage::Escalated,
            Recovery::DisableBuffer => WriteStage::Unbuffered,
        }
    }
}

/// The policy for a write to a device, trigger or channel: on denied access
/// escalate, but only before any fallback was used; on a busy device disable
/// its buffer, but only once; give up on everything else.
pub open spec fn write_decision(stage: WriteStage, failure: Option<FaultClass>) -> WriteDecision {
    match failure {
        None => WriteDecision::Done,
        Some(FaultClass::Access) => {
            if stage == WriteStage::First {
                WriteDecision::Retry(Recovery::Escalate)
            } else {
                WriteDecision::GiveUp
            }
        },
        Some(FaultClass::Busy) => {
            if stage == WriteStage::Unbuffered {
                WriteDecision::GiveUp
            } else {
                WriteDecision::Retry(Recovery::DisableBuffer)
            }
        },
        Some(_) => WriteDecision::GiveUp,
    }
}

/// The policy for the write that disables a device's buffer: on denied
/// access escalate once; give up on everything else.
pub open spec fn disable_decision(stage: WriteStage, failure: Option<FaultClass>) -> WriteDecision {
    match failure {
        None => WriteDecision::Done,
        Some(FaultClass::Access) => {
            if stage == WriteStage::First {
                WriteDecision::Retry(Recovery::Escalate)
            } else {
                WriteDecision::GiveUp
            }
        },
        Some(_) => WriteDecision::GiveUp,
    }
}

/// Decides what follows an attempt to write, given the class of its
/// failure, `None` where it succeeded.
pub fn next_write_step(stage: WriteStage, failure: Option<FaultClass>) -> (decision: WriteDecision)
    ensures
        decision == write_decision(stage, failure),
{
    match failure {
        None => WriteDecision::Done,
        Some(FaultClass::Access) => match stage {
            WriteStage::First => WriteDecision::Retry(Recovery::Escalate),
            _ => WriteDecision::GiveUp,
        },
        Some(FaultClass::Busy) => match stage {
            WriteStage::Unbuffered => WriteDecision::GiveUp,
            _ => WriteDecision::Retry(Recovery::DisableBuffer),
        },
        Some(_) => WriteDecision::GiveUp,
    }
}

/// Decides what follows an attempt to disable a device's buffer.
pub fn next_disable_step(stage: WriteStage, failure: Option<FaultClass>) -> (decision:
    WriteDecision)
    ensures
        decision == disable_decision(stage, failure),
{
    match failure {
        None => WriteDecision::Done,
        Some(FaultClass::Access) => match stage {
            WriteStage::First => WriteDecision::Retry(Recovery::Escalate),
            _ => WriteDecision::GiveUp,
        },
        Some(_) => WriteDecision::GiveUp,
    }
}

/// Decides what follows an attempt to write from the attempt's result: the
/// decision is the policy's for the class of the failure, and a success ends
/// the write.
pub fn after_write_attempt(stage: WriteStage, result: &Result<(), DeviceError>) -> (decision:
    WriteDecision)
    ensures
        decision == write_decision(stage, attempt_fault(*result)),
        result is Ok ==> decision == WriteDecision::Done,
        result matches Err(e) && e.os_code is None ==> decision == WriteDecision::GiveUp,
{
    match result {
        Ok(_) => WriteDecision::Done,
        Err(e) => {
            let class = fault_class(e);
            next_write_step(stage, Some(class))
        },
    }
}

/// Decides what follows an attempt to disable a device's buffer from the
/// attempt's result.
pub fn after_disable_attempt(stage: WriteStage, result: &Result<(), DeviceError>) -> (decision:
    WriteDecision)
    ensures
        decision == disable_decision(stage, attempt_fault(*result)),
        result is Ok ==> decision == WriteDecision::Done,
        result matches Err(e) && e.os_code is None ==> decision == WriteDecision::GiveUp,
{
    match result {
        Ok(_) => WriteDecision::Done,
        Err(e) => {
            let class = fault_class(e);
            next_disable_step(stage, Some(class))
        },
    }
}

/// Every retry moves the write to a later stage, so a write is attempted at
/// most three times, with at most one escalation and one disabling of the
/// buffer.
pub proof fn lemma_retry_advances(stage: WriteStage, failure: Option<FaultClass>)
    ensures
        write_decision(stage, failure) matches WriteDecision::Retry(r) ==> WriteStage::after(
            r,
        ).depth() > stage.depth(),
        disable_decision(stage, failure) matches WriteDecision::Retry(r) ==> WriteStage::after(
            r,
        ).depth() > stage.depth(),
        write_decision(WriteStage::Unbuffered, failure) !is Retry,
        disable_decision(WriteStage::Escalated, failure) !is Retry,
{
}

/// The number of attempts that a write makes, starting at `stage`, where
/// its attempts end as `outcomes` say, each with the class of its failure
/// or `None` for success. The write ends with the first attempt that is not
/// retried, or when the outcomes run out.
pub open spec fn attempts_made(stage: WriteStage, outcomes: Seq<Option<FaultClass>>) -> nat
    decreases outcomes.len(),
{
    if outcomes.len() == 0 {
        0
    } else {
        match write_decision(stage, outcomes[0]) {
            WriteDecision::Retry(r) => 1 + attempts_made(
                WriteStage::after(r),
                outcomes.drop_first(),
            ),
            _ => 1,
        }
    }
}

/// Whatever the attempts give, a write is attempted at most three times.
pub proof fn lemma_at_most_three_attempts(outcomes: Seq<Option<FaultClass>>)
    ensures
        attempts_made(WriteStage::First, outcomes) <= 3,
        attempts_made(WriteStage::Escalated, outcomes) <= 2,
        attempts_made(WriteStage::Unbuffered, outcomes) <= 1,
{
    reveal_with_fuel(attempts_made, 4);
}

/// What privileges are raised for.
#[derive(Debug, Clone, Copy, PartialEq, Eq, Structural)]
pub enum Purpose {
    TriggerCreation,
    BufferControl,
    TriggerAccess,
    DeviceAccess,
    ChannelAccess,
    TriggerSelection,
}

impl Purpose {
    /// The words for the purpose in a message.
    pub open spec fn text(self) -> Seq<char> {
        match self {
            Purpose::TriggerCreation => "trigger creation"@,
            Purpose::BufferControl => "iio buffer control"@,
            Purpose::TriggerAccess => "trigger access"@,
            Purpose::DeviceAccess => "device access"@,
            Purpose::ChannelAccess => "channel access"@,
            Purpose::TriggerSelection => "trigger selection"@,
        }
    }

    /// The words for the purpose in a message.
    pub fn words(self) -> (w: &'static str)
        ensures
            w@ == self.text(),
    {
        match self {
            Purpose::TriggerCreation => "trigger creation",
            Purpose::BufferControl => "iio buffer control",
            Purpose::TriggerAccess => "trigger access",
            Purpose::DeviceAccess => "device access",
            Purpose::ChannelAccess => "channel access",
            Purpose::TriggerSelection => "trigger selection",
        }
    }
}

/// The error for privileges that could not be raised. `cause` is the text of
/// the failure.
pub fn escalation_failure(purpose: Purpose, cause: &str) -> (e: Error)
    ensures
        e@ == ErrorView::InvalidState(
            "failed to escalate privileges for "@ + purpose.text() + ": "@ + cause@,
        ),
{
    let mut message = "failed to escalate privileges for ".to_owned();
    message.append(purpose.words());
    message.append(": ");
    message.append(cause);
    Error::InvalidState(message)
}

/// The value that is written to a sampling frequency attribute.
pub fn frequency_value(rate_hz: u32) -> (value: i64)
    ensures
        value == rate_hz,
{
    rate_hz as i64
}

/// Something that carries a sampling frequency attribute.
#[derive(Debug, Clone, Copy, PartialEq, Eq, Structural)]
pub enum FrequencyTarget {
    Trigger,
    Device,
    /// The channel at this position among the enabled channels.
    Channel(usize),
}

/// The enabled channels among the first `n` that carry the attribute, in
/// their order.
pub open spec fn channel_targets(channels: Seq<bool>, n: int) -> Seq<FrequencyTarget>
    decreases n,
{
    if n <= 0 {
        Seq::empty()
    } else if channels[n - 1] {
        channel_targets(channels, n - 1).push(FrequencyTarget::Channel((n - 1) as usize))
    } else {
        channel_targets(channels, n - 1)
    }
}

/// Where the sampling frequency is written, in order: the trigger, the
/// device, then each enabled channel; each only where it carries the
/// attribute. `trigger` is `None` where no trigger is used.
pub open spec fn frequency_targets(trigger: Option<bool>, device: bool, channels: Seq<bool>) -> Seq<
    FrequencyTarget,
> {
    (if trigger == Some(true) {
        seq![FrequencyTarget::Trigger]
    } else {
        Seq::empty()
    }) + (if device {
        seq![FrequencyTarget::Device]
    } else {
        Seq::empty()
    }) + channel_targets(channels, channels.len() as int)
}

/// Lists where the sampling frequency is to be written, in the order of the
/// writes. Each flag says whether the trigger, the device or an enabled
/// channel carries the attribute.
pub fn configure_sampling_frequency(trigger: Option<bool>, device: bool, chans: &Vec<bool>) -> (targets:
    Vec<FrequencyTarget>)
    ensures
        targets@ == frequency_targets(trigger, device, chans@),
{
    let mut targets: Vec<FrequencyTarget> = Vec::new();
    match trigger {
        Some(true) => {
            targets.push(FrequencyTarget::Trigger);
        },
        _ => {},
    }
    if device {
        targets.push(FrequencyTarget::Device);
    }
    let ghost head = targets@;
    let mut i: usize = 0;
    while i < chans.len()
        invariant
            i <= chans.len(),
            targets@ == head + channel_targets(chans@, i as int),
        decreases chans.len() - i,
    {
        if chans[i] {
            targets.push(FrequencyTarget::Channel(i));
        }
        i += 1;
    }
    targets
}

/// What follows the write of the sampling frequency to one target.
#[derive(Debug, Clone, PartialEq, Eq)]
pub enum FrequencyStep {
    /// Write the frequency to this target next.
    Write(FrequencyTarget),
    /// Every target is written.
    Done,
    /// The failure is final; no later target is written.
    Fail(Error),
}

/// What follows the write of the sampling frequency to one target, by
/// mathematical values.
pub enum FrequencyStepView {
    Write(FrequencyTarget),
    Done,
    Fail(ErrorView),
}

impl View for FrequencyStep {
    type V = FrequencyStepView;

    open spec fn view(&self) -> FrequencyStepView {
        match self {
            FrequencyStep::Write(target) => FrequencyStepView::Write(*target),
            FrequencyStep::Done => FrequencyStepView::Done,
            FrequencyStep::Fail(e) => FrequencyStepView::Fail(e@),
        }
    }
}

/// What follows the write to the target at `at`, whose last attempt gave
/// `failure`, `None` for success: a failure ends the writes with that
/// failure; after a success the next target is written, where there is one.
pub open spec fn frequency_step(
    targets: Seq<FrequencyTarget>,
    at: int,
    failure: Option<DeviceErrorView>,
) -> FrequencyStepView {
    match failure {
        Some(e) => FrequencyStepView::Fail(ErrorView::Iio(e)),
        None => {
            if at + 1 < targets.len() {
                FrequencyStepView::Write(targets[at + 1])
            } else {
                FrequencyStepView::Done
            }
        },
    }
}

/// The first write of the sampling frequency, where there is any target.
pub open spec fn first_frequency_step(targets: Seq<FrequencyTarget>) -> FrequencyStepView {
    if targets.len() > 0 {
        FrequencyStepView::Write(targets[0])
    } else {
        FrequencyStepView::Done
    }
}

/// Decides what follows the write of the sampling frequency to the target
/// at `at`, from what the last attempt of that write gave. The writes end
/// well only where the last attempt of every target succeeded, and the first
/// failure that the fallbacks leave ends them.
pub fn after_frequency_write(
    targets: &Vec<FrequencyTarget>,
    at: usize,
    last: &Result<(), DeviceError>,
) -> (step: FrequencyStep)
    requires
        at < targets.len(),
    ensures
        step@ == frequency_step(targets@, at as int, failure_of(*last)),
        last matches Err(e) ==> step@ == FrequencyStepView::Fail(ErrorView::Iio(e@)),
        last is Ok ==> step@ == (if at + 1 < targets.len() {
            FrequencyStepView::Write(targets@[at + 1])
        } else {
            FrequencyStepView::Done
        }),
{
    match last {
        Err(e) => FrequencyStep::Fail(Error::Iio(e.duplicate())),
        Ok(_) => {
            if at + 1 < targets.len() {
                FrequencyStep::Write(targets[at + 1])
            } else {
                FrequencyStep::Done
            }
        },
    }
}

/// The trigger to use: the first trigger device of the list.
pub open spec fn first_trigger(devices: Seq<DeviceInfo>, i: int) -> bool {
    &&& 0 <= i < devices.len()
    &&& devices[i].is_trigger
    &&& forall|j: int| 0 <= j < i ==> !(#[trigger] devices[j]).is_trigger
}

/// The position of the trigger to use, `None` where the list holds no
/// trigger.
pub open spec fn selected_trigger(devices: Seq<DeviceInfo>) -> Option<usize> {
    if exists|i: int| first_trigger(devices, i) {
        Some((choose|i: int| first_trigger(devices, i)) as usize)
    } else {
        None
    }
}

/// A list has at most one first trigger.
pub proof fn lemma_first_trigger_unique(devices: Seq<DeviceInfo>, i: int, k: int)
    requires
        first_trigger(devices, i),
        first_trigger(devices, k),
    ensures
        i == k,
{
    if i < k {
        assert(!devices[i].is_trigger);
    } else if k < i {
        assert(!devices[k].is_trigger);
    }
}

/// Selects the trigger to use: the first trigger device of the list, `None`
/// where the list holds no trigger.
pub fn select_trigger(devices: &Vec<DeviceInfo>) -> (selected: Option<usize>)
    ensures
        selected == selected_trigger(devices@),
        match selected {
            Some(i) => first_trigger(devices@, i as int),
            None => forall|j: int| 0 <= j < devices.len() ==> !(#[trigger] devices@[j]).is_trigger,
        },
{
    let mut i: usize = 0;
    while i < devices.len()
        invariant
            i <= devices.len(),
            forall|j: int| 0 <= j < i ==> !(#[trigger] devices@[j]).is_trigger,
        decreases devices.len() - i,
    {
        if devices[i].is_trigger {
            proof {
                assert(first_trigger(devices@, i as int));
                let k = choose|k: int| first_trigger(devices@, k);
                lemma_first_trigger_unique(devices@, i as int, k);
            }
            return Some(i);
        }
        i += 1;
    }
    proof {
        assert forall|k: int| !first_trigger(devices@, k) by {
            if 0 <= k < devices.len() {
                assert(!devices@[k].is_trigger);
            }
        }
    }
    None
}

/// The failure of an attempt by its mathematical value, `None` where the
/// attempt succeeded.
pub open spec fn failure_of(attempt: Result<(), DeviceError>) -> Option<DeviceErrorView> {
    match attempt {
        Ok(_) => None,
        Err(e) => Some(e@),
    }
}

/// The result of binding a trigger to the device. `failure` is that of the
/// last attempt and `busy` whether it says that the device is busy: success
/// gives the trigger's name, a busy device its failure as it is, and any
/// other failure an error that names the trigger.
pub open spec fn trigger_binding(
    trigger_name: Option<Seq<char>>,
    failure: Option<DeviceErrorView>,
    busy: bool,
) -> Result<Option<Seq<char>>, ErrorView> {
    match failure {
        None => Ok(trigger_name),
        Some(e) => {
            if busy {
                Err(ErrorView::Iio(e))
            } else {
                Err(
                    ErrorView::InvalidState(
                        "failed to set trigger "@ + debug_text(trigger_name) + ": "@ + e.message,
                    ),
                )
            }
        },
    }
}

/// The name of a trigger, or the error, by their mathematical values.
pub open spec fn binding_view(result: Result<Option<String>, Error>) -> Result<
    Option<Seq<char>>,
    ErrorView,
> {
    match result {
        Ok(name) => Ok(option_view(name)),
        Err(e) => Err(e@),
    }
}

/// Maps the last attempt to bind a trigger to the result of the binding,
/// given whether its failure says that the device is busy.
pub fn trigger_bound(trigger_name: Option<String>, bound: Result<(), DeviceError>, busy: bool) -> (result:
    Result<Option<String>, Error>)
    ensures
        binding_view(result) == trigger_binding(option_view(trigger_name), failure_of(bound), busy),
{
    match bound {
        Ok(_) => Ok(trigger_name),
        Err(e) => {
            if busy {
                Err(Error::Iio(e))
            } else {
                let mut message = "failed to set trigger ".to_owned();
                message.append(debug_option(&trigger_name).as_str());
                message.append(": ");
                message.append(e.message.as_str());
                Err(Error::InvalidState(message))
            }
        },
    }
}

/// Whether an attempt failed with a failure that says the device is busy.
pub open spec fn failed_busy(attempt: Result<(), DeviceError>) -> bool {
    attempt_fault(attempt) == Some(FaultClass::Busy)
}

/// Maps the last attempt to bind a trigger to the result of the binding.
/// Without a trigger nothing is bound and the result is `Ok(None)`; else the
/// result is that of [`trigger_bound`] for the class of the failure.
pub fn set_trigger(trigger_name: Option<String>, bound: Option<Result<(), DeviceError>>) -> (result:
    Result<Option<String>, Error>)
    ensures
        bound is None ==> result == Ok::<Option<String>, Error>(None),
        bound matches Some(b) ==> binding_view(result) == trigger_binding(
            option_view(trigger_name),
            failure_of(b),
            failed_busy(b),
        ),
{
    match bound {
        None => Ok(None),
        Some(bound) => {
            let busy = match &bound {
                Ok(_) => false,
                Err(e) => is_device_busy_error(e),
            };
            trigger_bound(trigger_name, bound, busy)
        },
    }
}

/// Holds the timer trigger that the daemon created. Releasing the guard
/// gives the directory that is to be removed.
#[derive(Debug, PartialEq, Eq)]
pub struct TriggerGuard {
    path: String,
}

impl TriggerGuard {
    /// The directory that stands for the trigger.
    pub closed spec fn path_view(&self) -> Seq<char> {
        self.path@
    }

    /// The directory that stands for the trigger.
    pub fn path(&self) -> (p: &str)
        ensures
            p@ == self.path_view(),
    {
        self.path.as_str()
    }

    /// Ends the guard: the caller removes the directory that is returned,
    /// and with it the trigger.
    pub fn release(self) -> (p: String)
        ensures
            p@ == self.path_view(),
    {
        self.path
    }
}

/// What examining the directory for timer triggers gave.
#[derive(Debug, Clone, PartialEq, Eq)]
pub enum BaseProbe {
    /// It is a directory.
    Directory,
    /// It exists and is no directory.
    NotDirectory,
    /// It does not exist.
    Missing,
    /// It could not be examined; the text says why.
    Failed(String),
}

/// What creating the trigger's directory gave.
#[derive(Debug, Clone, PartialEq, Eq)]
pub enum DirCreation {
    Created,
    AlreadyExists,
    /// It could not be created; the text says why.
    Failed(String),
}

/// The directory that stands for the timer trigger `name`: the name below
/// the base directory, or the name itself where it is an absolute path.
pub open spec fn hrtimer_path(name: Seq<char>) -> Seq<char> {
    if name.len() > 0 && name[0] == '/' {
        name
    } else {
        HRTIMER_TRIGGER_BASE@ + "/"@ + name
    }
}

/// Whether a timer trigger can be created, by what examining the base
/// directory gave: the directory to create, or why none can be.
pub open spec fn hrtimer_plan(name: Seq<char>, base: BaseProbe) -> Result<Seq<char>, ErrorView> {
    match base {
        BaseProbe::Directory => Ok(hrtimer_path(name)),
        BaseProbe::NotDirectory => Err(
            ErrorView::InvalidState("iio hrtimer configfs is not a directory"@),
        ),
        BaseProbe::Missing => Err(ErrorView::InvalidState("iio hrtimer configfs is not available"@)),
        BaseProbe::Failed(cause) => Err(
            ErrorView::InvalidState("failed to access iio hrtimer configfs: "@ + cause@),
        ),
    }
}

/// First half of the creation of a timer trigger: from what examining the
/// base directory gave, the directory to create for the trigger `name`, or
/// the error.
pub fn create_hrtimer_trigger(name: &str, base: &BaseProbe) -> (path: Result<String, Error>)
    ensures
        match path {
            Ok(p) => hrtimer_plan(name@, *base) == Ok::<_, ErrorView>(p@),
            Err(e) => hrtimer_plan(name@, *base) == Err::<Seq<char>, _>(e@),
        },
{
    match base {
        BaseProbe::Directory => {
            if name.unicode_len() > 0 && name.get_char(0) == '/' {
                Ok(name.to_owned())
            } else {
                let mut path = HRTIMER_TRIGGER_BASE.to_owned();
                path.append("/");
                path.append(name);
                Ok(path)
            }
        },
        BaseProbe::NotDirectory => Err(
            Error::invalid_state("iio hrtimer configfs is not a directory"),
        ),
        BaseProbe::Missing => Err(Error::invalid_state("iio hrtimer configfs is not available")),
        BaseProbe::Failed(cause) => {
            let mut message = "failed to access iio hrtimer configfs: ".to_owned();
            message.append(cause.as_str());
            Err(Error::InvalidState(message))
        },
    }
}

/// Second half of the creation of a timer trigger: from what creating the
/// directory gave, a guard for a trigger that is new, nothing for one that
/// was there already, or the error.
pub fn hrtimer_trigger_created(path: String, creation: &DirCreation) -> (guard: Result<
    Option<TriggerGuard>,
    Error,
>)
    ensures
        match *creation {
            DirCreation::Created => guard matches Ok(Some(g)) && g.path_view() == path@,
            DirCreation::AlreadyExists => guard matches Ok(None),
            DirCreation::Failed(cause) => guard matches Err(e) && e@ == ErrorView::InvalidState(
                "failed to create iio hrtimer trigger at "@ + path@ + ": "@ + cause@,
            ),
        },
{
    match creation {
        DirCreation::Created => Ok(Some(TriggerGuard { path })),
        DirCreation::AlreadyExists => Ok(None),
        DirCreation::Failed(cause) => {
            let mut message = "failed to create iio hrtimer trigger at ".to_owned();
            message.append(path.as_str());
            message.append(": ");
            message.append(cause.as_str());
            Err(Error::InvalidState(message))
        },
    }
}

/// First step of making sure that a trigger device exists. `escalation` is
/// what raising the privileges gave, with the text of its failure. Where
/// that failed, the error says so; else the result is the name of the timer
/// trigger to create with [`create_hrtimer_trigger`].
pub fn ensure_trigger_device(escalation: &Result<(), String>) -> (name: Result<&'static str, Error>)
    ensures
        match *escalation {
            Err(cause) => name matches Err(e) && e@ == ErrorView::InvalidState(
                "failed to escalate privileges for "@ + Purpose::TriggerCreation.text() + ": "@
                    + cause@,
            ),
            Ok(_) => name matches Ok(n) && n@ == DEFAULT_HRTIMER_TRIGGER@,
        },
{
    match escalation {
        Err(cause) => Err(escalation_failure(Purpose::TriggerCreation, cause.as_str())),
        Ok(_) => Ok(DEFAULT_HRTIMER_TRIGGER),
    }
}

/// Whether disabling the buffer of a device takes a write: it does where the
/// device has a buffer; for any other device there is nothing to disable.
pub fn disable_iio_buffer(dev: &DeviceInfo) -> (stage: Option<WriteStage>)
    ensures
        stage == if dev.is_buffer_capable {
            Some(WriteStage::First)
        } else {
            None
        },
{
    if dev.is_buffer_capable {
        Some(WriteStage::First)
    } else {
        None
    }
}

} // verus!
