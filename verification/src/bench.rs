//! The benchmark as a state machine: it is fed the reply to the call that is
//! pending and answers with the next call, until it finishes with the elapsed
//! time of the measured transform or with the failure that ended the run.
//!
//! The run uploads the input, sets up the plan, executes once untimed so that
//! one-time setup inside the foreign libraries is out of the way, uploads the
//! input again because the transform works in place, and then brackets one
//! more execution with two recorded events. Whatever happens, every resource
//! that was acquired is released, last acquired first, before the run ends.

use crate::cuda::{
    spec_check, BufferModel, CudaBuffer, CudaEvent, EventModel, DEFAULT_STREAM,
};
use crate::cufft::{CufftPlan, PlanModel};
use crate::device::{viewed_option, DeviceCall, ReleaseWarning, Reply};
use crate::error::{Error, LocalError};
use num_complex::Complex32;
use vstd::layout::size_of;
use vstd::prelude::*;

verus! {

/// The resource whose release is under way.
#[derive(Debug, Copy, Clone, PartialEq, Eq)]
pub enum Released {
    Stop,
    Start,
    Plan,
    Buffer,
}

/// Where the run stands. Every phase but the last names the call whose reply
/// is awaited.
#[derive(Debug, Copy, Clone, PartialEq, Eq)]
pub enum Phase {
    /// The device buffer is being allocated.
    Allocating,
    /// The input is being copied to the device for the first time.
    Uploading,
    /// The plan is being set up.
    Planning,
    /// The untimed transform has been issued.
    WarmingUp,
    /// The device is being synchronized after the untimed transform.
    WarmupSynchronizing,
    /// The input is being copied to the device again.
    Reuploading,
    /// The event that starts the measurement is being created.
    CreatingStart,
    /// The event that ends the measurement is being created.
    CreatingStop,
    /// The start event is being recorded.
    RecordingStart,
    /// The timed transform has been issued.
    Executing,
    /// The device is being synchronized after the timed transform.
    Synchronizing,
    /// The stop event is being recorded.
    RecordingStop,
    /// The stop event is being waited for.
    SynchronizingStop,
    /// The time between the two events is being read.
    Measuring,
    /// A resource is being released; the outcome of the run is settled.
    Releasing(Released, Result<u32, Error>),
    /// Nothing is pending and nothing is held.
    Finished(Result<u32, Error>),
}

/// What the embedding program has to do next.
#[derive(Debug, Copy, Clone, PartialEq, Eq)]
pub enum Action {
    /// Issue this call and hand its reply to the next step.
    Call(DeviceCall),
    /// The run is over: the bits of the elapsed milliseconds in single
    /// precision, or the failure that ended it.
    Finish(Result<u32, Error>),
}

/// The answer to one reply.
#[derive(Debug, Copy, Clone, PartialEq, Eq)]
pub struct Step {
    /// Set when the reply reported a failed release.
    pub warning: Option<ReleaseWarning>,
    pub action: Action,
}

/// What a run is: its parameters, its phase, and the resources it holds.
pub struct BenchModel {
    pub batch: usize,
    pub length: usize,
    pub host_len: usize,
    pub phase: Phase,
    pub buffer: Option<BufferModel>,
    pub plan: Option<PlanModel>,
    pub start: Option<EventModel>,
    pub stop: Option<EventModel>,
}

impl Phase {
    /// An upper bound on the number of replies that the run still takes.
    pub open spec fn remaining(self) -> nat {
        match self {
            Phase::Allocating => 18,
            Phase::Uploading => 17,
            Phase::Planning => 16,
            Phase::WarmingUp => 15,
            Phase::WarmupSynchronizing => 14,
            Phase::Reuploading => 13,
            Phase::CreatingStart => 12,
            Phase::CreatingStop => 11,
            Phase::RecordingStart => 10,
            Phase::Executing => 9,
            Phase::Synchronizing => 8,
            Phase::RecordingStop => 7,
            Phase::SynchronizingStop => 6,
            Phase::Measuring => 5,
            Phase::Releasing(Released::Stop, _) => 4,
            Phase::Releasing(Released::Start, _) => 3,
            Phase::Releasing(Released::Plan, _) => 2,
            Phase::Releasing(Released::Buffer, _) => 1,
            Phase::Finished(_) => 0,
        }
    }
}

impl BenchModel {
    /// The number of elements of the whole batch.
    pub open spec fn total(self) -> usize {
        (self.batch * self.length) as usize
    }

    /// The sizes of the held resources are those of the run.
    pub open spec fn coherent(self) -> bool {
        &&& self.batch * self.length <= usize::MAX
        &&& self.total() * size_of::<Complex32>() <= usize::MAX
        &&& self.buffer matches Some(b) ==> b.len == self.total()
        &&& self.plan matches Some(p) ==> p.length == self.length && p.batch == self.batch
    }

    /// The resources that are held are those that the phase has acquired and
    /// not yet released, and the events are as far as the phase has brought
    /// them.
    pub open spec fn shaped(self) -> bool {
        match self.phase {
            Phase::Allocating => self.buffer is None && self.plan is None && self.start is None
                && self.stop is None,
            Phase::Uploading | Phase::Planning => self.buffer is Some && self.plan is None
                && self.start is None && self.stop is None,
            Phase::WarmingUp
            | Phase::WarmupSynchronizing
            | Phase::Reuploading
            | Phase::CreatingStart => self.buffer is Some && self.plan is Some && self.start is None
                && self.stop is None,
            Phase::CreatingStop => self.buffer is Some && self.plan is Some && self.start is Some
                && self.stop is None,
            Phase::RecordingStart => self.buffer is Some && self.plan is Some && self.start is Some
                && self.stop is Some,
            Phase::Executing | Phase::Synchronizing | Phase::RecordingStop => self.buffer is Some
                && self.plan is Some && self.start is Some && self.stop is Some
                && self.start.unwrap().recorded,
            Phase::SynchronizingStop => self.buffer is Some && self.plan is Some
                && self.start is Some && self.stop is Some && self.start.unwrap().recorded
                && self.stop.unwrap().recorded,
            Phase::Measuring => self.buffer is Some && self.plan is Some && self.start is Some
                && self.stop is Some && self.start.unwrap().recorded
                && self.stop.unwrap().recorded && self.stop.unwrap().reached,
            Phase::Releasing(Released::Stop, _) => self.stop is None,
            Phase::Releasing(Released::Start, _) => self.stop is None && self.start is None,
            Phase::Releasing(Released::Plan, _) => self.stop is None && self.start is None
                && self.plan is None,
            Phase::Releasing(Released::Buffer, _) | Phase::Finished(_) => self.stop is None
                && self.start is None && self.plan is None && self.buffer is None,
        }
    }

    /// Whether the run is in its working part: it has neither begun to
    /// release what it holds nor finished.
    pub open spec fn working(self) -> bool {
        !(self.phase is Releasing) && !(self.phase is Finished)
    }

    /// What the phase has already found out about the parameters: once the
    /// first upload has been issued, the host input has the size of the
    /// batch, and once the plan has been asked for, the foreign interface can
    /// take both numbers.
    pub open spec fn settled(self) -> bool {
        &&& self.working() && !(self.phase is Allocating) ==> self.host_len == self.total()
        &&& self.working() && !(self.phase is Allocating) && !(self.phase is Uploading)
            ==> self.length <= i32::MAX && self.batch <= i32::MAX
    }

    /// The states that a run can be in.
    pub open spec fn wf(self) -> bool {
        self.coherent() && self.shaped() && self.settled()
    }

    /// The run before its first reply, with the call that it opens with, or
    /// the local error that the batch is too large to be asked for.
    pub open spec fn begin(batch: usize, length: usize, host_len: usize) -> Result<
        (BenchModel, DeviceCall),
        Error,
    > {
        if batch * length > usize::MAX {
            Err(Error::Local(LocalError::SizeOverflow))
        } else {
            match CudaBuffer::<Complex32>::spec_allocate_call((batch * length) as usize) {
                Ok(call) => Ok(
                    (
                        BenchModel {
                            batch,
                            length,
                            host_len,
                            phase: Phase::Allocating,
                            buffer: None,
                            plan: None,
                            start: None,
                            stop: None,
                        },
                        call,
                    ),
                ),
                Err(e) => Err(e),
            }
        }
    }

    /// Ends the working part of the run with `outcome`: releases what was
    /// acquired last, or finishes when nothing is held.
    pub open spec fn wind_down(self, outcome: Result<u32, Error>) -> (BenchModel, Action) {
        if self.stop is Some {
            (
                BenchModel { stop: None, phase: Phase::Releasing(Released::Stop, outcome), ..self },
                Action::Call(DeviceCall::EventDestroy { event: self.stop.unwrap().handle }),
            )
        } else if self.start is Some {
            (
                BenchModel {
                    start: None,
                    phase: Phase::Releasing(Released::Start, outcome),
                    ..self
                },
                Action::Call(DeviceCall::EventDestroy { event: self.start.unwrap().handle }),
            )
        } else if self.plan is Some {
            (
                BenchModel { plan: None, phase: Phase::Releasing(Released::Plan, outcome), ..self },
                Action::Call(DeviceCall::Destroy { plan: self.plan.unwrap().handle }),
            )
        } else if self.buffer is Some {
            (
                BenchModel {
                    buffer: None,
                    phase: Phase::Releasing(Released::Buffer, outcome),
                    ..self
                },
                Action::Call(DeviceCall::Free { dev_ptr: self.buffer.unwrap().ptr }),
            )
        } else {
            (BenchModel { phase: Phase::Finished(outcome), ..self }, Action::Finish(outcome))
        }
    }

    /// Goes on to `phase` with the call `next`, or winds down with the error
    /// that stands in its place.
    pub open spec fn advance(self, phase: Phase, next: Result<DeviceCall, Error>) -> (
        BenchModel,
        Action,
    ) {
        match next {
            Ok(call) => (BenchModel { phase, ..self }, Action::Call(call)),
            Err(e) => self.wind_down(Err(e)),
        }
    }

    /// The warning that a reply to a release is worth.
    pub open spec fn release_warning(which: Released, reply: Reply) -> Option<ReleaseWarning> {
        match which {
            Released::Stop | Released::Start => match spec_check(reply) {
                Ok(_) => None,
                Err(status) => Some(ReleaseWarning::EventDestroy(status)),
            },
            Released::Plan => if reply.transform_status().spec_is_success() {
                None
            } else {
                Some(ReleaseWarning::Destroy(reply.transform_status()))
            },
            Released::Buffer => match spec_check(reply) {
                Ok(_) => None,
                Err(status) => Some(ReleaseWarning::Free(status)),
            },
        }
    }

    /// The state after `reply` has answered the pending call, and the action
    /// that follows, in the working part of the run.
    pub open spec fn work(self, reply: Reply) -> (BenchModel, Action) {
        match self.phase {
            Phase::Allocating => match CudaBuffer::<Complex32>::spec_allocate(self.total(), reply) {
                Ok(b) => BenchModel { buffer: Some(b), ..self }.advance(
                    Phase::Uploading,
                    CudaBuffer::<Complex32>::spec_copy_from_host_call(b, self.host_len),
                ),
                Err(e) => self.wind_down(Err(e)),
            },
            Phase::Uploading => match CudaBuffer::<Complex32>::spec_copy_from_host(
                self.buffer.unwrap(),
                self.host_len,
                reply,
            ) {
                Ok(_) => self.advance(
                    Phase::Planning,
                    CufftPlan::spec_new_batch_1d_call(self.length, self.batch),
                ),
                Err(e) => self.wind_down(Err(e)),
            },
            Phase::Planning => match CufftPlan::spec_new_batch_1d(self.length, self.batch, reply) {
                Ok(p) => BenchModel { plan: Some(p), ..self }.advance(
                    Phase::WarmingUp,
                    CufftPlan::spec_execute_forward_call(p, self.buffer.unwrap()),
                ),
                Err(e) => self.wind_down(Err(e)),
            },
            Phase::WarmingUp => self.advance(
                Phase::WarmupSynchronizing,
                CufftPlan::spec_execute_forward(reply),
            ),
            Phase::WarmupSynchronizing => match CufftPlan::spec_execute_forward_synchronized(
                reply,
            ) {
                Ok(_) => self.advance(
                    Phase::Reuploading,
                    CudaBuffer::<Complex32>::spec_copy_from_host_call(
                        self.buffer.unwrap(),
                        self.host_len,
                    ),
                ),
                Err(e) => self.wind_down(Err(e)),
            },
            Phase::Reuploading => match CudaBuffer::<Complex32>::spec_copy_from_host(
                self.buffer.unwrap(),
                self.host_len,
                reply,
            ) {
                Ok(_) => self.advance(Phase::CreatingStart, Ok(DeviceCall::EventCreate)),
                Err(e) => self.wind_down(Err(e)),
            },
            Phase::CreatingStart => match EventModel::spec_create(reply) {
                Ok(ev) => BenchModel { start: Some(ev), ..self }.advance(
                    Phase::CreatingStop,
                    Ok(DeviceCall::EventCreate),
                ),
                Err(e) => self.wind_down(Err(e)),
            },
            Phase::CreatingStop => match EventModel::spec_create(reply) {
                Ok(ev) => BenchModel { stop: Some(ev), ..self }.advance(
                    Phase::RecordingStart,
                    Ok(
                        DeviceCall::EventRecord {
                            event: self.start.unwrap().handle,
                            stream: DEFAULT_STREAM,
                        },
                    ),
                ),
                Err(e) => self.wind_down(Err(e)),
            },
            Phase::RecordingStart => {
                let next = BenchModel {
                    start: Some(self.start.unwrap().after_record(reply)),
                    ..self
                };
                match spec_check(reply) {
                    Ok(_) => next.advance(
                        Phase::Executing,
                        CufftPlan::spec_execute_forward_call(
                            self.plan.unwrap(),
                            self.buffer.unwrap(),
                        ),
                    ),
                    Err(status) => next.wind_down(Err(Error::Runtime(status))),
                }
            },
            Phase::Executing => self.advance(
                Phase::Synchronizing,
                CufftPlan::spec_execute_forward(reply),
            ),
            Phase::Synchronizing => match CufftPlan::spec_execute_forward_synchronized(reply) {
                Ok(_) => self.advance(
                    Phase::RecordingStop,
                    Ok(
                        DeviceCall::EventRecord {
                            event: self.stop.unwrap().handle,
                            stream: DEFAULT_STREAM,
                        },
                    ),
                ),
                Err(e) => self.wind_down(Err(e)),
            },
            Phase::RecordingStop => {
                let next = BenchModel {
                    stop: Some(self.stop.unwrap().after_record(reply)),
                    ..self
                };
                match spec_check(reply) {
                    Ok(_) => next.advance(
                        Phase::SynchronizingStop,
                        Ok(DeviceCall::EventSynchronize { event: self.stop.unwrap().handle }),
                    ),
                    Err(status) => next.wind_down(Err(Error::Runtime(status))),
                }
            },
            Phase::SynchronizingStop => {
                let next = BenchModel {
                    stop: Some(self.stop.unwrap().after_synchronize(reply)),
                    ..self
                };
                match spec_check(reply) {
                    Ok(_) => next.advance(
                        Phase::Measuring,
                        Ok(
                            DeviceCall::EventElapsedTime {
                                start: self.start.unwrap().handle,
                                end: self.stop.unwrap().handle,
                            },
                        ),
                    ),
                    Err(status) => next.wind_down(Err(Error::Runtime(status))),
                }
            },
            Phase::Measuring => self.wind_down(EventModel::spec_elapsed_time(reply)),
            Phase::Releasing(_, outcome) => self.wind_down(outcome),
            Phase::Finished(outcome) => (self, Action::Finish(outcome)),
        }
    }

    /// The state after `reply` has answered the pending call, and the answer
    /// to it.
    pub open spec fn step(self, reply: Reply) -> (BenchModel, Step) {
        let (next, action) = self.work(reply);
        let warning = match self.phase {
            Phase::Releasing(which, _) => Self::release_warning(which, reply),
            _ => None,
        };
        (next, Step { warning, action })
    }
}

/// One run of the benchmark. It owns the device buffer, the plan and the two
/// events from the reply that reports each to the call that releases it.
pub struct Bench {
    batch: usize,
    length: usize,
    host_len: usize,
    phase: Phase,
    buffer: Option<CudaBuffer<Complex32>>,
    plan: Option<CufftPlan>,
    start: Option<CudaEvent>,
    stop: Option<CudaEvent>,
}

impl View for Bench {
    type V = BenchModel;

    closed spec fn view(&self) -> BenchModel {
        Self::model(
            self.batch,
            self.length,
            self.host_len,
            self.phase,
            self.buffer,
            self.plan,
            self.start,
            self.stop,
        )
    }
}

impl Bench {
    /// What a run with these parts is.
    spec fn model(
        batch: usize,
        length: usize,
        host_len: usize,
        phase: Phase,
        buffer: Option<CudaBuffer<Complex32>>,
        plan: Option<CufftPlan>,
        start: Option<CudaEvent>,
        stop: Option<CudaEvent>,
    ) -> BenchModel {
        BenchModel {
            batch,
            length,
            host_len,
            phase,
            buffer: viewed_option(buffer),
            plan: viewed_option(plan),
            start: viewed_option(start),
            stop: viewed_option(stop),
        }
    }

    #[verifier::type_invariant]
    spec fn inv(self) -> bool {
        self@.wf()
    }

    /// Starts a run of `batch` transforms of `length` elements on an input of
    /// `host_len` elements: the run, and the call that it opens with. A
    /// batch whose size is not representable is rejected without a call.
    pub fn new(batch: usize, length: usize, host_len: usize) -> (r: Result<
        (Bench, DeviceCall),
        Error,
    >)
        ensures
            match r {
                Ok((bench, call)) => BenchModel::begin(batch, length, host_len) == Ok::<
                    (BenchModel, DeviceCall),
                    Error,
                >((bench@, call)) && bench@.wf(),
                Err(e) => BenchModel::begin(batch, length, host_len) == Err::<
                    (BenchModel, DeviceCall),
                    Error,
                >(e),
            },
    {
        let total = match batch.checked_mul(length) {
            Some(total) => total,
            None => {
                return Err(Error::Local(LocalError::SizeOverflow));
            },
        };
        let call = CudaBuffer::<Complex32>::allocate_call(total)?;
        let bench = Bench {
            batch,
            length,
            host_len,
            phase: Phase::Allocating,
            buffer: None,
            plan: None,
            start: None,
            stop: None,
        };
        Ok((bench, call))
    }

    /// Where the run stands.
    pub fn phase(&self) -> (phase: Phase)
        ensures
            phase == self@.phase,
    {
        self.phase
    }

    /// Whether the run is over.
    pub fn is_finished(&self) -> (finished: bool)
        ensures
            finished == (self@.phase is Finished),
    {
        match self.phase {
            Phase::Finished(_) => true,
            _ => false,
        }
    }

    /// The number of transforms in the batch.
    pub fn batch(&self) -> (batch: usize)
        ensures
            batch == self@.batch,
    {
        self.batch
    }

    /// The length of one transform.
    pub fn length(&self) -> (length: usize)
        ensures
            length == self@.length,
    {
        self.length
    }

    /// Releases what was acquired last among the given resources, or
    /// finishes when there is none.
    fn wind_down(
        batch: usize,
        length: usize,
        host_len: usize,
        buffer: Option<CudaBuffer<Complex32>>,
        plan: Option<CufftPlan>,
        start: Option<CudaEvent>,
        stop: Option<CudaEvent>,
        outcome: Result<u32, Error>,
    ) -> (r: (Bench, Action))
        requires
            Self::model(batch, length, host_len, Phase::Allocating, buffer, plan, start, stop)
                .coherent(),
        ensures
            (r.0@, r.1) == Self::model(
                batch,
                length,
                host_len,
                Phase::Allocating,
                buffer,
                plan,
                start,
                stop,
            ).wind_down(outcome),
            r.0@.wf(),
    {
        if stop.is_some() {
            let call = stop.unwrap().release();
            (
                Bench {
                    batch,
                    length,
                    host_len,
                    phase: Phase::Releasing(Released::Stop, outcome),
                    buffer,
                    plan,
                    start,
                    stop: None,
                },
                Action::Call(call),
            )
        } else if start.is_some() {
            let call = start.unwrap().release();
            (
                Bench {
                    batch,
                    length,
                    host_len,
                    phase: Phase::Releasing(Released::Start, outcome),
                    buffer,
                    plan,
                    start: None,
                    stop: None,
                },
                Action::Call(call),
            )
        } else if plan.is_some() {
            let call = plan.unwrap().release();
            (
                Bench {
                    batch,
                    length,
                    host_len,
                    phase: Phase::Releasing(Released::Plan, outcome),
                    buffer,
                    plan: None,
                    start: None,
                    stop: None,
                },
                Action::Call(call),
            )
        } else if buffer.is_some() {
            let call = buffer.unwrap().release();
            (
                Bench {
                    batch,
                    length,
                    host_len,
                    phase: Phase::Releasing(Released::Buffer, outcome),
                    buffer: None,
                    plan: None,
                    start: None,
                    stop: None,
                },
                Action::Call(call),
            )
        } else {
            (
                Bench {
                    batch,
                    length,
                    host_len,
                    phase: Phase::Finished(outcome),
                    buffer: None,
                    plan: None,
                    start: None,
                    stop: None,
                },
                Action::Finish(outcome),
            )
        }
    }

    /// Interprets a reply to a release.
    fn release_warning(which: Released, reply: Reply) -> (warning: Option<ReleaseWarning>)
        ensures
            warning == BenchModel::release_warning(which, reply),
    {
        match which {
            Released::Stop | Released::Start => CudaEvent::released(reply),
            Released::Plan => CufftPlan::released(reply),
            Released::Buffer => CudaBuffer::<Complex32>::released(reply),
        }
    }

    /// Takes the reply to the pending call and decides what follows.
    fn work(self, reply: Reply) -> (r: (Bench, Action))
        ensures
            (r.0@, r.1) == self@.work(reply),
            r.0@.wf(),
    {
        proof {
            use_type_invariant(&self);
        }
        let Bench { batch, length, host_len, phase, buffer, plan, start, stop } = self;
        match phase {
            Phase::Allocating => {
                match CudaBuffer::<Complex32>::allocate(batch * length, reply) {
                    Ok(b) => match b.copy_from_host_call(host_len) {
                        Ok(call) => (
                            Bench {
                                batch,
                                length,
                                host_len,
                                phase: Phase::Uploading,
                                buffer: Some(b),
                                plan,
                                start,
                                stop,
                            },
                            Action::Call(call),
                        ),
                        Err(e) => Self::wind_down(
                            batch,
                            length,
                            host_len,
                            Some(b),
                            plan,
                            start,
                            stop,
                            Err(e),
                        ),
                    },
                    Err(e) => Self::wind_down(
                        batch,
                        length,
                        host_len,
                        buffer,
                        plan,
                        start,
                        stop,
                        Err(e),
                    ),
                }
            },
            Phase::Uploading => {
                let mut b = buffer.unwrap();
                match b.copy_from_host(host_len, reply) {
                    Ok(()) => match CufftPlan::new_batch_1d_call(length, batch) {
                        Ok(call) => (
                            Bench {
                                batch,
                                length,
                                host_len,
                                phase: Phase::Planning,
                                buffer: Some(b),
                                plan,
                                start,
                                stop,
                            },
                            Action::Call(call),
                        ),
                        Err(e) => Self::wind_down(
                            batch,
                            length,
                            host_len,
                            Some(b),
                            plan,
                            start,
                            stop,
                            Err(e),
                        ),
                    },
                    Err(e) => Self::wind_down(
                        batch,
                        length,
                        host_len,
                        Some(b),
                        plan,
                        start,
                        stop,
                        Err(e),
                    ),
                }
            },
            Phase::Planning => {
                let b = buffer.unwrap();
                match CufftPlan::new_batch_1d(length, batch, reply) {
                    Ok(p) => match p.execute_forward_call(&b) {
                        Ok(call) => (
                            Bench {
                                batch,
                                length,
                                host_len,
                                phase: Phase::WarmingUp,
                                buffer: Some(b),
                                plan: Some(p),
                                start,
                                stop,
                            },
                            Action::Call(call),
                        ),
                        Err(e) => Self::wind_down(
                            batch,
                            length,
                            host_len,
                            Some(b),
                            Some(p),
                            start,
                            stop,
                            Err(e),
                        ),
                    },
                    Err(e) => Self::wind_down(
                        batch,
                        length,
                        host_len,
                        Some(b),
                        plan,
                        start,
                        stop,
                        Err(e),
                    ),
                }
            },
            Phase::WarmingUp => {
                let p = plan.unwrap();
                match p.execute_forward(reply) {
                    Ok(call) => (
                        Bench {
                            batch,
                            length,
                            host_len,
                            phase: Phase::WarmupSynchronizing,
                            buffer,
                            plan: Some(p),
                            start,
                            stop,
                        },
                        Action::Call(call),
                    ),
                    Err(e) => Self::wind_down(
                        batch,
                        length,
                        host_len,
                        buffer,
                        Some(p),
                        start,
                        stop,
                        Err(e),
                    ),
                }
            },
            Phase::WarmupSynchronizing => {
                let p = plan.unwrap();
                let b = buffer.unwrap();
                match p.execute_forward_synchronized(reply) {
                    Ok(()) => match b.copy_from_host_call(host_len) {
                        Ok(call) => (
                            Bench {
                                batch,
                                length,
                                host_len,
                                phase: Phase::Reuploading,
                                buffer: Some(b),
                                plan: Some(p),
                                start,
                                stop,
                            },
                            Action::Call(call),
                        ),
                        Err(e) => Self::wind_down(
                            batch,
                            length,
                            host_len,
                            Some(b),
                            Some(p),
                            start,
                            stop,
                            Err(e),
                        ),
                    },
                    Err(e) => Self::wind_down(
                        batch,
                        length,
                        host_len,
                        Some(b),
                        Some(p),
                        start,
                        stop,
                        Err(e),
                    ),
                }
            },
            Phase::Reuploading => {
                let mut b = buffer.unwrap();
                match b.copy_from_host(host_len, reply) {
                    Ok(()) => (
                        Bench {
                            batch,
                            length,
                            host_len,
                            phase: Phase::CreatingStart,
                            buffer: Some(b),
                            plan,
                            start,
                            stop,
                        },
                        Action::Call(CudaEvent::create_call()),
                    ),
                    Err(e) => Self::wind_down(
                        batch,
                        length,
                        host_len,
                        Some(b),
                        plan,
                        start,
                        stop,
                        Err(e),
                    ),
                }
            },
            Phase::CreatingStart => {
                match CudaEvent::create(reply) {
                    Ok(ev) => (
                        Bench {
                            batch,
                            length,
                            host_len,
                            phase: Phase::CreatingStop,
                            buffer,
                            plan,
                            start: Some(ev),
                            stop,
                        },
                        Action::Call(CudaEvent::create_call()),
                    ),
                    Err(e) => Self::wind_down(
                        batch,
                        length,
                        host_len,
                        buffer,
                        plan,
                        start,
                        stop,
                        Err(e),
                    ),
                }
            },
            Phase::CreatingStop => {
                let first = start.unwrap();
                match CudaEvent::create(reply) {
                    Ok(ev) => {
                        let call = first.record_call();
                        (
                            Bench {
                                batch,
                                length,
                                host_len,
                                phase: Phase::RecordingStart,
                                buffer,
                                plan,
                                start: Some(first),
                                stop: Some(ev),
                            },
                            Action::Call(call),
                        )
                    },
                    Err(e) => Self::wind_down(
                        batch,
                        length,
                        host_len,
                        buffer,
                        plan,
                        Some(first),
                        stop,
                        Err(e),
                    ),
                }
            },
            Phase::RecordingStart => {
                let mut first = start.unwrap();
                let p = plan.unwrap();
                let b = buffer.unwrap();
                match first.record(reply) {
                    Ok(()) => match p.execute_forward_call(&b) {
                        Ok(call) => (
                            Bench {
                                batch,
                                length,
                                host_len,
                                phase: Phase::Executing,
                                buffer: Some(b),
                                plan: Some(p),
                                start: Some(first),
                                stop,
                            },
                            Action::Call(call),
                        ),
                        Err(e) => Self::wind_down(
                            batch,
                            length,
                            host_len,
                            Some(b),
                            Some(p),
                            Some(first),
                            stop,
                            Err(e),
                        ),
                    },
                    Err(status) => Self::wind_down(
                        batch,
                        length,
                        host_len,
                        Some(b),
                        Some(p),
                        Some(first),
                        stop,
                        Err(Error::Runtime(status)),
                    ),
                }
            },
            Phase::Executing => {
                let p = plan.unwrap();
                match p.execute_forward(reply) {
                    Ok(call) => (
                        Bench {
                            batch,
                            length,
                            host_len,
                            phase: Phase::Synchronizing,
                            buffer,
                            plan: Some(p),
                            start,
                            stop,
                        },
                        Action::Call(call),
                    ),
                    Err(e) => Self::wind_down(
                        batch,
                        length,
                        host_len,
                        buffer,
                        Some(p),
                        start,
                        stop,
                        Err(e),
                    ),
                }
            },
            Phase::Synchronizing => {
                let p = plan.unwrap();
                let last = stop.unwrap();
                match p.execute_forward_synchronized(reply) {
                    Ok(()) => {
                        let call = last.record_call();
                        (
                            Bench {
                                batch,
                                length,
                                host_len,
                                phase: Phase::RecordingStop,
                                buffer,
                                plan: Some(p),
                                start,
                                stop: Some(last),
                            },
                            Action::Call(call),
                        )
                    },
                    Err(e) => Self::wind_down(
                        batch,
                        length,
                        host_len,
                        buffer,
                        Some(p),
                        start,
                        Some(last),
                        Err(e),
                    ),
                }
            },
            Phase::RecordingStop => {
                let mut last = stop.unwrap();
                match last.record(reply) {
                    Ok(()) => {
                        let call = last.synchronize_call();
                        (
                            Bench {
                                batch,
                                length,
                                host_len,
                                phase: Phase::SynchronizingStop,
                                buffer,
                                plan,
                                start,
                                stop: Some(last),
                            },
                            Action::Call(call),
                        )
                    },
                    Err(status) => Self::wind_down(
                        batch,
                        length,
                        host_len,
                        buffer,
                        plan,
                        start,
                        Some(last),
                        Err(Error::Runtime(status)),
                    ),
                }
            },
            Phase::SynchronizingStop => {
                let first = start.unwrap();
                let mut last = stop.unwrap();
                match last.synchronize(reply) {
                    Ok(()) => {
                        let call = first.elapsed_time_call(&last);
                        (
                            Bench {
                                batch,
                                length,
                                host_len,
                                phase: Phase::Measuring,
                                buffer,
                                plan,
                                start: Some(first),
                                stop: Some(last),
                            },
                            Action::Call(call),
                        )
                    },
                    Err(status) => Self::wind_down(
                        batch,
                        length,
                        host_len,
                        buffer,
                        plan,
                        Some(first),
                        Some(last),
                        Err(Error::Runtime(status)),
                    ),
                }
            },
            Phase::Measuring => {
                let first = start.unwrap();
                let last = stop.unwrap();
                let outcome = first.elapsed_time(&last, reply);
                Self::wind_down(
                    batch,
                    length,
                    host_len,
                    buffer,
                    plan,
                    Some(first),
                    Some(last),
                    outcome,
                )
            },
            Phase::Releasing(_, outcome) => Self::wind_down(
                batch,
                length,
                host_len,
                buffer,
                plan,
                start,
                stop,
                outcome,
            ),
            Phase::Finished(outcome) => (
                Bench { batch, length, host_len, phase, buffer, plan, start, stop },
                Action::Finish(outcome),
            ),
        }
    }

    /// Takes the reply to the pending call and answers with what to do next.
    /// A failed status ends the working part of the run at once; the reply to
    /// a release only ever adds a warning. After the run has finished, every
    /// further reply is answered with the same outcome.
    pub fn step(self, reply: Reply) -> (r: (Bench, Step))
        ensures
            (r.0@, r.1) == self@.step(reply),
            r.0@.wf(),
    {
        let warning = match self.phase {
            Phase::Releasing(which, _) => Self::release_warning(which, reply),
            _ => None,
        };
        let (next, action) = self.work(reply);
        (next, Step { warning, action })
    }
}

} // verus!
