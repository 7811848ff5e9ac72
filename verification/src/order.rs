//! The order of the calls of a run in which nothing fails, and what a failure
//! does to a run.

use crate::bench::{Action, BenchModel, Phase, Step};
use crate::cuda::{cudaEvent_t, cudaMemcpyKind, DEFAULT_STREAM};
use crate::cufft::{cufftHandle, cufftType, CUFFT_FORWARD};
use crate::device::{DeviceCall, Output, Reply};
use crate::error::{Error, LocalError};
use crate::ledger::{given_back, lemma_step_keeps_account, run};
use num_complex::Complex32;
use vstd::layout::size_of;
use vstd::prelude::*;

verus! {

/// The run after the first `n` of `replies`.
pub open spec fn after(m: BenchModel, replies: Seq<Reply>, n: nat) -> BenchModel
    decreases n,
{
    if n == 0 {
        m
    } else {
        after(m, replies, (n - 1) as nat).step(replies[n - 1]).0
    }
}

/// The answer of the run to the reply at position `n` of `replies`.
pub open spec fn answer(m: BenchModel, replies: Seq<Reply>, n: nat) -> Step {
    after(m, replies, n).step(replies[n as int]).1
}

/// The calls of a run without failure, in order. The input is uploaded, the
/// plan is set up and executed once untimed on that first upload, the device
/// is synchronized, the input is uploaded again, both events are created, and
/// one more execution with its synchronization stands between the recording
/// of the start event and the recording of the stop event. The stop event is
/// waited for before the elapsed time is read. Then the stop event, the start
/// event, the plan and the buffer are released, in this order, and the run
/// finishes with the elapsed time that was read.
pub proof fn lemma_clean_run(
    batch: usize,
    length: usize,
    ptr: usize,
    plan: cufftHandle,
    start: cudaEvent_t,
    stop: cudaEvent_t,
    bits: u32,
    replies: Seq<Reply>,
)
    requires
        batch <= i32::MAX,
        length <= i32::MAX,
        batch * length <= usize::MAX,
        batch * length * size_of::<Complex32>() <= usize::MAX,
        replies.len() == 18,
        forall|i: int| 0 <= i < 18 ==> (#[trigger] replies[i]).status == 0,
        replies[0].output == Output::Pointer(ptr),
        replies[2].output == Output::Plan(plan),
        replies[6].output == Output::Event(start),
        replies[7].output == Output::Event(stop),
        replies[13].output == Output::Millis(bits),
    ensures
        ({
            let total = (batch * length) as usize;
            let size = (total * size_of::<Complex32>()) as usize;
            let upload = DeviceCall::Memcpy {
                dst: ptr,
                count: size,
                kind: cudaMemcpyKind::cudaMemcpyHostToDevice,
            };
            let execute = DeviceCall::ExecC2C {
                plan,
                idata: ptr,
                odata: ptr,
                direction: CUFFT_FORWARD,
            };
            &&& BenchModel::begin(batch, length, total) matches Ok((m, first))
            &&& first == (DeviceCall::Malloc { size })
            &&& answer(m, replies, 0).action == Action::Call(upload)
            &&& answer(m, replies, 1).action == Action::Call(
                DeviceCall::PlanMany {
                    rank: 1,
                    n: length as i32,
                    inembed: None,
                    istride: 1,
                    idist: length as i32,
                    onembed: None,
                    ostride: 1,
                    odist: length as i32,
                    type_: cufftType::CUFFT_C2C,
                    batch: batch as i32,
                },
            )
            &&& answer(m, replies, 2).action == Action::Call(execute)
            &&& answer(m, replies, 3).action == Action::Call(DeviceCall::DeviceSynchronize)
            &&& answer(m, replies, 4).action == Action::Call(upload)
            &&& answer(m, replies, 5).action == Action::Call(DeviceCall::EventCreate)
            &&& answer(m, replies, 6).action == Action::Call(DeviceCall::EventCreate)
            &&& answer(m, replies, 7).action == Action::Call(
                DeviceCall::EventRecord { event: start, stream: DEFAULT_STREAM },
            )
            &&& answer(m, replies, 8).action == Action::Call(execute)
            &&& answer(m, replies, 9).action == Action::Call(DeviceCall::DeviceSynchronize)
            &&& answer(m, replies, 10).action == Action::Call(
                DeviceCall::EventRecord { event: stop, stream: DEFAULT_STREAM },
            )
            &&& answer(m, replies, 11).action == Action::Call(
                DeviceCall::EventSynchronize { event: stop },
            )
            &&& answer(m, replies, 12).action == Action::Call(
                DeviceCall::EventElapsedTime { start, end: stop },
            )
            &&& answer(m, replies, 13).action == Action::Call(
                DeviceCall::EventDestroy { event: stop },
            )
            &&& answer(m, replies, 14).action == Action::Call(
                DeviceCall::EventDestroy { event: start },
            )
            &&& answer(m, replies, 15).action == Action::Call(DeviceCall::Destroy { plan })
            &&& answer(m, replies, 16).action == Action::Call(DeviceCall::Free { dev_ptr: ptr })
            &&& answer(m, replies, 17).action == Action::Finish(Ok(bits))
            &&& forall|i: nat| i < 18 ==> (#[trigger] answer(m, replies, i)).warning is None
        }),
{
    let total = (batch * length) as usize;
    let m = BenchModel::begin(batch, length, total).unwrap().0;
    assert(length * batch == batch * length) by (nonlinear_arith);
    reveal_with_fuel(after, 2);
    let m1 = after(m, replies, 1);
    assert(m1.phase == Phase::Uploading);
    let m2 = after(m, replies, 2);
    assert(m2.phase == Phase::Planning);
    let m3 = after(m, replies, 3);
    assert(m3.phase == Phase::WarmingUp);
    let m4 = after(m, replies, 4);
    assert(m4.phase == Phase::WarmupSynchronizing);
    let m5 = after(m, replies, 5);
    assert(m5.phase == Phase::Reuploading);
    let m6 = after(m, replies, 6);
    assert(m6.phase == Phase::CreatingStart);
    let m7 = after(m, replies, 7);
    assert(m7.phase == Phase::CreatingStop);
    let m8 = after(m, replies, 8);
    assert(m8.phase == Phase::RecordingStart);
    let m9 = after(m, replies, 9);
    assert(m9.phase == Phase::Executing);
    let m10 = after(m, replies, 10);
    assert(m10.phase == Phase::Synchronizing);
    let m11 = after(m, replies, 11);
    assert(m11.phase == Phase::RecordingStop);
    let m12 = after(m, replies, 12);
    assert(m12.phase == Phase::SynchronizingStop);
    let m13 = after(m, replies, 13);
    assert(m13.phase == Phase::Measuring);
    let m14 = after(m, replies, 14);
    assert(m14.phase is Releasing);
    let m15 = after(m, replies, 15);
    assert(m15.phase is Releasing);
    let m16 = after(m, replies, 16);
    assert(m16.phase is Releasing);
    let m17 = after(m, replies, 17);
    assert(m17.phase is Releasing);
    assert forall|i: nat| i < 18 implies (#[trigger] answer(m, replies, i)).warning is None by {
        assert(replies[i as int].status == 0);
    }
}

impl Phase {
    /// The outcome of the run, once it is settled.
    pub open spec fn outcome(self) -> Option<Result<u32, Error>> {
        match self {
            Phase::Releasing(_, outcome) => Some(outcome),
            Phase::Finished(outcome) => Some(outcome),
            _ => None,
        }
    }
}

impl BenchModel {
    /// The failure that a failed status of `reply` means in the phase of the
    /// run: which operation failed, and with which foreign status.
    pub open spec fn failure(self, reply: Reply) -> Error {
        match self.phase {
            Phase::Planning => Error::Plan(reply.transform_status()),
            Phase::WarmingUp | Phase::Executing => Error::Execution(reply.transform_status()),
            Phase::WarmupSynchronizing | Phase::Synchronizing => Error::Synchronization(
                reply.runtime_status(),
            ),
            _ => Error::Runtime(reply.runtime_status()),
        }
    }

    /// Whether `output` is what the call of the phase writes.
    pub open spec fn fits(self, output: Output) -> bool {
        match self.phase {
            Phase::Allocating => output is Pointer,
            Phase::Planning => output is Plan,
            Phase::CreatingStart | Phase::CreatingStop => output is Event,
            Phase::Measuring => output is Millis,
            _ => true,
        }
    }
}

/// A failed status ends the working part of a run at once. The outcome of
/// the run is settled as the failure of the operation that was under way, no
/// output of the reply is taken, and the only calls from then on are
/// releases.
pub proof fn lemma_failure_ends_work(m: BenchModel, reply: Reply)
    requires
        m.wf(),
        m.working(),
        reply.status != 0,
    ensures
        ({
            let (next, step) = m.step(reply);
            &&& next.phase.outcome() == Some(Err::<u32, Error>(m.failure(reply)))
            &&& !m.failure(reply).spec_is_local()
            &&& step.warning is None
            &&& next.buffer == m.buffer || next.buffer is None
            &&& next.plan == m.plan || next.plan is None
            &&& next.start == m.start || next.start is None
            &&& next.stop == m.stop || next.stop is None
            &&& step.action matches Action::Call(c) ==> c.releases() is Some
        }),
{
}

impl BenchModel {
    /// The local error that keeps the run from issuing the call that follows
    /// the phase, if there is one: the first upload is not issued for an
    /// input whose size is not that of the batch, and the plan is not asked
    /// for with numbers that the foreign interface cannot take.
    pub open spec fn objection(self) -> Option<LocalError> {
        match self.phase {
            Phase::Allocating => if self.host_len != self.total() {
                Some(
                    LocalError::SizeMismatch {
                        expected: self.total() as u64,
                        actual: self.host_len as u64,
                    },
                )
            } else {
                None
            },
            Phase::Uploading => if self.length > i32::MAX || self.batch > i32::MAX {
                Some(LocalError::SizeOverflow)
            } else {
                None
            },
            _ => None,
        }
    }
}

/// A successful reply with the output that its call writes keeps a run
/// working, unless the run objects to the next call: the run goes on to the
/// next phase with the next call. The one exception is the reply that brings
/// the elapsed time, which settles the outcome of the run as that time. A
/// successful reply that lacks the output settles it as a local error, and so
/// does an objection.
pub proof fn lemma_success_goes_on(m: BenchModel, reply: Reply)
    requires
        m.wf(),
        m.working(),
        reply.status == 0,
    ensures
        ({
            let (next, step) = m.step(reply);
            &&& step.warning is None
            &&& m.fits(reply.output) && m.objection() is None && !(m.phase is Measuring)
                ==> next.working() && next.phase.remaining() + 1 == m.phase.remaining()
                && step.action is Call && given_back(step.action) is None
            &&& m.phase is Measuring ==> (reply.output matches Output::Millis(bits)
                ==> next.phase.outcome() == Some(Ok::<u32, Error>(bits)))
            &&& !m.fits(reply.output) ==> next.phase.outcome() == Some(
                Err::<u32, Error>(Error::Local(LocalError::MissingOutput)),
            )
            &&& m.fits(reply.output) ==> (m.objection() matches Some(e)
                ==> next.phase.outcome() == Some(Err::<u32, Error>(Error::Local(e))))
        }),
{
    assert(m.length * m.batch == m.batch * m.length) by (nonlinear_arith);
}

/// Once the outcome of a run is settled it stays: no reply to a release
/// changes it, and it is the outcome that the run finishes with.
pub proof fn lemma_outcome_is_kept(
    m: BenchModel,
    call: DeviceCall,
    replies: Seq<Reply>,
    outcome: Result<u32, Error>,
)
    requires
        m.wf(),
        m.awaits(call),
        m.phase.outcome() == Some(outcome),
        replies.len() >= m.phase.remaining(),
    ensures
        run(m, call, replies).end.phase == Phase::Finished(outcome),
    decreases replies.len(),
{
    let (next, step) = m.step(replies[0]);
    lemma_step_keeps_account(m, call, replies[0]);
    match step.action {
        Action::Call(c) => {
            lemma_outcome_is_kept(next, c, replies.drop_first(), outcome);
        },
        Action::Finish(_) => {},
    }
}

} // verus!
