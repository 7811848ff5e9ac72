//! Accounting of the resources of a run: what a run holds, what the replies
//! give it and what its calls give back. The theorems here say that a run
//! releases everything it acquires, whatever the replies are.

use crate::bench::{Action, BenchModel, Phase, Released};
use crate::device::{DeviceCall, Reply, Resource};
use vstd::multiset::Multiset;
use vstd::prelude::*;

verus! {

/// The multiset that holds `r`, if there is one, and nothing else.
pub open spec fn of(r: Option<Resource>) -> Multiset<Resource> {
    match r {
        Some(r) => Multiset::singleton(r),
        None => Multiset::empty(),
    }
}

/// The resource that an action gives back to the foreign side.
pub open spec fn given_back(action: Action) -> Option<Resource> {
    match action {
        Action::Call(call) => call.releases(),
        Action::Finish(_) => None,
    }
}

impl BenchModel {
    /// The resources that the run owns.
    pub open spec fn held(self) -> Multiset<Resource> {
        of(
            match self.buffer {
                Some(b) => Some(Resource::Buffer(b.ptr)),
                None => None,
            },
        ).add(
            of(
                match self.plan {
                    Some(p) => Some(Resource::Plan(p.handle)),
                    None => None,
                },
            ),
        ).add(
            of(
                match self.start {
                    Some(e) => Some(Resource::Event(e.handle)),
                    None => None,
                },
            ),
        ).add(
            of(
                match self.stop {
                    Some(e) => Some(Resource::Event(e.handle)),
                    None => None,
                },
            ),
        )
    }

    /// Whether `call` is of the kind whose reply the run waits for.
    pub open spec fn awaits(self, call: DeviceCall) -> bool {
        match self.phase {
            Phase::Allocating => call is Malloc,
            Phase::Uploading | Phase::Reuploading => call is Memcpy,
            Phase::Planning => call is PlanMany,
            Phase::WarmingUp | Phase::Executing => call is ExecC2C,
            Phase::WarmupSynchronizing | Phase::Synchronizing => call is DeviceSynchronize,
            Phase::CreatingStart | Phase::CreatingStop => call is EventCreate,
            Phase::RecordingStart | Phase::RecordingStop => call is EventRecord,
            Phase::SynchronizingStop => call is EventSynchronize,
            Phase::Measuring => call is EventElapsedTime,
            Phase::Releasing(Released::Stop, _) | Phase::Releasing(
                Released::Start,
                _,
            ) => call is EventDestroy,
            Phase::Releasing(Released::Plan, _) => call is Destroy,
            Phase::Releasing(Released::Buffer, _) => call is Free,
            Phase::Finished(_) => false,
        }
    }
}

/// A run that has just begun is well formed, holds nothing, and waits for the
/// reply to the allocation that it opens with.
pub proof fn lemma_begin_holds_nothing(batch: usize, length: usize, host_len: usize)
    ensures
        match BenchModel::begin(batch, length, host_len) {
            Ok((m, call)) => m.wf() && m.awaits(call) && m.held() =~= Multiset::empty()
                && m.phase == Phase::Allocating,
            Err(e) => e.spec_is_local(),
        },
{
    broadcast use vstd::multiset::group_multiset_axioms;

}

/// One step keeps the account. When `reply` answers the pending `call`, what
/// the run holds afterwards, together with what its next call gives back, is
/// what it held before together with what the reply created. The next call
/// works only on resources that the run holds at that moment, the run is
/// strictly nearer to its end, and it ends exactly when nothing is left to
/// release.
pub proof fn lemma_step_keeps_account(m: BenchModel, call: DeviceCall, reply: Reply)
    requires
        m.wf(),
        m.awaits(call),
    ensures
        ({
            let (next, step) = m.step(reply);
            &&& next.wf()
            &&& next.held().add(of(given_back(step.action))) =~= m.held().add(
                of(reply.acquires(call)),
            )
            &&& next.phase.remaining() < m.phase.remaining()
            &&& next.batch == m.batch && next.length == m.length && next.host_len == m.host_len
            &&& match step.action {
                Action::Call(c) => next.awaits(c) && forall|r: Resource| #[trigger]
                    c.touches(r) ==> m.held().add(of(reply.acquires(call))).count(r) > 0,
                Action::Finish(outcome) => next.phase == Phase::Finished(outcome)
                    && next.held() =~= Multiset::empty(),
            }
            &&& step.warning is Some ==> m.phase is Releasing && reply.status != 0
        }),
{
    broadcast use vstd::multiset::group_multiset_axioms;

    let (next, step) = m.step(reply);
    let after = next.held().add(of(given_back(step.action)));
    let before = m.held().add(of(reply.acquires(call)));
    assert(after =~= before);
}

/// What a run has come to after some replies: where it stands, what the
/// replies created, and what its calls gave back.
pub struct Account {
    pub end: BenchModel,
    pub acquired: Multiset<Resource>,
    pub released: Multiset<Resource>,
}

/// Runs `m`, which waits for the reply to `call`, over `replies`: each reply
/// answers the call that the step before it issued. Replies that come after
/// the run has finished answer no call and are left aside.
pub open spec fn run(m: BenchModel, call: DeviceCall, replies: Seq<Reply>) -> Account
    decreases replies.len(),
{
    if replies.len() == 0 {
        Account { end: m, acquired: Multiset::empty(), released: Multiset::empty() }
    } else {
        let (next, step) = m.step(replies[0]);
        let got = of(replies[0].acquires(call));
        match step.action {
            Action::Call(c) => {
                let rest = run(next, c, replies.drop_first());
                Account {
                    end: rest.end,
                    acquired: got.add(rest.acquired),
                    released: of(c.releases()).add(rest.released),
                }
            },
            Action::Finish(_) => Account {
                end: next,
                acquired: got,
                released: Multiset::empty(),
            },
        }
    }
}

/// At every point of a run the account balances: what the run held at first
/// and what the replies created since is what it holds now and what its calls
/// have given back. The run stays well formed, and once it has been fed as
/// many replies as its phase leaves room for, it has finished and holds
/// nothing.
pub proof fn lemma_run_balances(m: BenchModel, call: DeviceCall, replies: Seq<Reply>)
    requires
        m.wf(),
        m.awaits(call),
    ensures
        ({
            let account = run(m, call, replies);
            &&& account.end.wf()
            &&& m.held().add(account.acquired) =~= account.end.held().add(account.released)
            &&& replies.len() >= m.phase.remaining() ==> account.end.phase is Finished
                && account.end.held() =~= Multiset::empty()
        }),
    decreases replies.len(),
{
    broadcast use vstd::multiset::group_multiset_axioms;

    if replies.len() > 0 {
        let (next, step) = m.step(replies[0]);
        lemma_step_keeps_account(m, call, replies[0]);
        match step.action {
            Action::Call(c) => {
                lemma_run_balances(next, c, replies.drop_first());
                let rest = run(next, c, replies.drop_first());
                let account = run(m, call, replies);
                let got = of(replies[0].acquires(call));
                let back = of(c.releases());
                assert forall|r: Resource|
                    m.held().add(account.acquired).count(r) == account.end.held().add(
                        account.released,
                    ).count(r) by {
                    assert(next.held().add(back).count(r) == m.held().add(got).count(r));
                    assert(next.held().add(rest.acquired).count(r) == rest.end.held().add(
                        rest.released,
                    ).count(r));
                    assert(account.acquired.count(r) == got.count(r) + rest.acquired.count(r));
                    assert(account.released.count(r) == back.count(r) + rest.released.count(r));
                }
            },
            Action::Finish(_) => {},
        }
    }
}

/// A benchmark leaks nothing. Whatever the replies are, failures and
/// malformed replies included, a run that has been fed eighteen replies has
/// finished, holds nothing, and has given back, one release for each, exactly
/// the resources that the replies created.
pub proof fn lemma_benchmark_releases_what_it_acquires(
    batch: usize,
    length: usize,
    host_len: usize,
    replies: Seq<Reply>,
)
    requires
        replies.len() >= 18,
    ensures
        match BenchModel::begin(batch, length, host_len) {
            Ok((m, call)) => {
                let account = run(m, call, replies);
                &&& account.end.phase is Finished
                &&& account.end.held() =~= Multiset::empty()
                &&& account.acquired =~= account.released
            },
            Err(e) => e.spec_is_local(),
        },
{
    broadcast use vstd::multiset::group_multiset_axioms;

    lemma_begin_holds_nothing(batch, length, host_len);
    match BenchModel::begin(batch, length, host_len) {
        Ok((m, call)) => {
            lemma_run_balances(m, call, replies);
            let account = run(m, call, replies);
            assert forall|r: Resource| account.acquired.count(r) == account.released.count(
                r,
            ) by {
                assert(m.held().add(account.acquired).count(r) == account.end.held().add(
                    account.released,
                ).count(r));
            }
        },
        Err(_) => {},
    }
}

} // verus!
