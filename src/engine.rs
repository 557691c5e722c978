//! The measurement cycle: clear, start, (wait), freeze, read, stop. Each step
//! returns the values to store, in order, in the profiling control register;
//! the caller performs those stores and makes each one visible to the device
//! before it goes on.

use vstd::prelude::*;
use crate::metrics::{profile_of, ProfileResult, RawCounters};

verus! {

/// Control value that resets the accumulators and clears the overflow bit.
pub const CTRL_RESET: u32 = 0xA;

/// Control bit that enables the accumulators.
pub const CTRL_ENABLE: u32 = 0x1;

/// Control bit that freezes the accumulators and loads them for reading.
pub const CTRL_FREEZE: u32 = 0x4;

/// Control value that disables the accumulators.
pub const CTRL_DISABLE: u32 = 0x0;

/// Where a sampler stands in its cycle.
#[derive(Clone, Copy, Debug, PartialEq, Eq, Structural)]
pub enum Phase {
    Idle,
    Armed,
    Running,
    Frozen,
}

/// A step of the cycle.
#[derive(Clone, Copy, Debug, PartialEq, Eq, Structural)]
pub enum Op {
    Clear,
    Start,
    Freeze,
    Read,
    Stop,
}

/// The phase after `op` in phase `p`, or `None` where `op` is not allowed.
pub open spec fn next_phase(p: Phase, op: Op) -> Option<Phase> {
    match (p, op) {
        (Phase::Idle, Op::Clear) => Some(Phase::Armed),
        (Phase::Armed, Op::Start) => Some(Phase::Running),
        (Phase::Running, Op::Freeze) => Some(Phase::Frozen),
        (Phase::Frozen, Op::Read) => Some(Phase::Frozen),
        (Phase::Frozen, Op::Stop) => Some(Phase::Idle),
        _ => None,
    }
}

/// The phase after the steps `ops` from phase `p`, or `None` where one of
/// them is not allowed.
pub open spec fn run_ops(p: Phase, ops: Seq<Op>) -> Option<Phase>
    decreases ops.len(),
{
    if ops.len() == 0 {
        Some(p)
    } else {
        match run_ops(p, ops.drop_last()) {
            Some(q) => next_phase(q, ops.last()),
            None => None,
        }
    }
}

/// What the control register holds in each phase.
pub open spec fn control_in(p: Phase) -> u32 {
    match p {
        Phase::Idle => CTRL_DISABLE,
        Phase::Armed => CTRL_RESET,
        Phase::Running => CTRL_ENABLE,
        Phase::Frozen => CTRL_ENABLE | CTRL_FREEZE,
    }
}

/// The steps before `i` of an allowed run form an allowed run.
proof fn lemma_prefix_allowed(p: Phase, ops: Seq<Op>, i: int)
    requires
        run_ops(p, ops) is Some,
        0 <= i <= ops.len(),
    ensures
        run_ops(p, ops.take(i)) is Some,
    decreases ops.len(),
{
    if i == ops.len() {
        assert(ops.take(i) =~= ops);
    } else {
        lemma_prefix_allowed(p, ops.drop_last(), i);
        assert(ops.drop_last().take(i) =~= ops.take(i));
    }
}

/// A run from `Idle` that ends `Running` ends with `Start`; one that ends
/// `Frozen` ends with `Start`, `Freeze` and then reads alone.
proof fn lemma_phase_evidence(ops: Seq<Op>)
    ensures
        run_ops(Phase::Idle, ops) == Some(Phase::Running) ==> ops.len() > 0 && ops.last()
            == Op::Start,
        run_ops(Phase::Idle, ops) == Some(Phase::Frozen) ==> started_then_frozen(ops, ops.len() as int),
    decreases ops.len(),
{
    if ops.len() > 0 {
        let pre = ops.drop_last();
        lemma_phase_evidence(pre);
        if run_ops(Phase::Idle, ops) == Some(Phase::Frozen) {
            if ops.last() == Op::Freeze {
                assert(run_ops(Phase::Idle, pre) == Some(Phase::Running));
                let j = ops.len() - 2;
                assert(ops[j] == pre.last());
                assert(started_then_frozen_at(ops, ops.len() as int, j));
            } else {
                assert(ops.last() == Op::Read);
                assert(run_ops(Phase::Idle, pre) == Some(Phase::Frozen));
                let j = choose|j: int| started_then_frozen_at(pre, pre.len() as int, j);
                assert(forall|k: int| j + 2 <= k < ops.len() ==> ops[k] == Op::Read) by {
                    assert forall|k: int| j + 2 <= k < ops.len() implies ops[k] == Op::Read by {
                        if k < pre.len() {
                            assert(ops[k] == pre[k]);
                        }
                    }
                }
                assert(ops[j] == pre[j] && ops[j + 1] == pre[j + 1]);
                assert(started_then_frozen_at(ops, ops.len() as int, j));
            }
        }
    }
}

/// Among the first `n` steps of `ops`, some `Start` is followed at once by
/// `Freeze`, and every later step up to `n` is a read.
pub open spec fn started_then_frozen(ops: Seq<Op>, n: int) -> bool {
    exists|j: int| started_then_frozen_at(ops, n, j)
}

/// Step `j` of `ops` is a `Start`, step `j + 1` a `Freeze`, and every step
/// from `j + 2` up to `n` a read.
pub open spec fn started_then_frozen_at(ops: Seq<Op>, n: int, j: int) -> bool {
    &&& 0 <= j
    &&& j + 2 <= n
    &&& ops[j] == Op::Start
    &&& ops[j + 1] == Op::Freeze
    &&& forall|k: int| j + 2 <= k < n ==> ops[k] == Op::Read
}

/// In every allowed run from `Idle`, the counters are frozen only right after
/// they were started, and read only after a start and a freeze with nothing
/// but reads since: no allowed run freezes or reads while `Armed`.
pub proof fn lemma_counters_read_only_after_start(ops: Seq<Op>, i: int)
    requires
        run_ops(Phase::Idle, ops) is Some,
        0 <= i < ops.len(),
    ensures
        ops[i] == Op::Freeze ==> i > 0 && ops[i - 1] == Op::Start,
        ops[i] == Op::Read ==> started_then_frozen(ops, i),
{
    lemma_prefix_allowed(Phase::Idle, ops, i + 1);
    let pre = ops.take(i);
    let upto = ops.take(i + 1);
    assert(upto.drop_last() =~= pre);
    assert(upto.last() == ops[i]);
    lemma_phase_evidence(pre);
    if ops[i] == Op::Freeze {
        assert(run_ops(Phase::Idle, pre) == Some(Phase::Running));
        assert(pre.last() == ops[i - 1]);
    }
    if ops[i] == Op::Read {
        assert(run_ops(Phase::Idle, pre) == Some(Phase::Frozen));
        let j = choose|j: int| started_then_frozen_at(pre, pre.len() as int, j);
        assert(ops[j] == pre[j] && ops[j + 1] == pre[j + 1]);
        assert(forall|k: int| j + 2 <= k < i ==> ops[k] == Op::Read) by {
            assert forall|k: int| j + 2 <= k < i implies ops[k] == Op::Read by {
                assert(ops[k] == pre[k]);
            }
        }
        assert(started_then_frozen_at(ops, i, j));
    }
}

/// Drives the counters of one controller through measurement cycles.
pub struct Sampler {
    phase: Phase,
    control: u32,
    history: Ghost<Seq<Op>>,
}

impl Sampler {
    /// The current phase.
    pub closed spec fn state(&self) -> Phase {
        self.phase
    }

    /// Every step taken since the sampler was made, in order.
    pub closed spec fn ops(&self) -> Seq<Op> {
        self.history@
    }

    /// The control value that this sampler last ordered.
    pub closed spec fn last_control(&self) -> u32 {
        self.control
    }

    /// The steps taken form an allowed run from `Idle` that ends in the
    /// current phase, and the control value matches that phase.
    pub open spec fn wf(&self) -> bool {
        &&& run_ops(Phase::Idle, self.ops()) == Some(self.state())
        &&& self.last_control() == control_in(self.state())
    }

    /// A sampler in `Idle` that has taken no step.
    pub fn new() -> (r: Sampler)
        ensures
            r.wf(),
            r.state() == Phase::Idle,
            r.ops() == Seq::<Op>::empty(),
    {
        Sampler { phase: Phase::Idle, control: CTRL_DISABLE, history: Ghost(Seq::empty()) }
    }

    /// The current phase.
    pub fn phase(&self) -> (r: Phase)
        ensures
            r == self.state(),
    {
        self.phase
    }

    /// Resets the accumulators and clears the overflow bit: `Idle` to `Armed`.
    pub fn clear(&mut self) -> (writes: Vec<u32>)
        requires
            old(self).wf(),
            old(self).state() == Phase::Idle,
        ensures
            final(self).wf(),
            final(self).state() == Phase::Armed,
            final(self).ops() == old(self).ops().push(Op::Clear),
            writes@ == seq![CTRL_RESET],
    {
        proof {
            assert(self.history@.push(Op::Clear).drop_last() =~= self.history@);
        }
        self.phase = Phase::Armed;
        self.control = CTRL_RESET;
        self.history = Ghost(self.history@.push(Op::Clear));
        vec![CTRL_RESET]
    }

    /// Resets the accumulators once more and enables them: `Armed` to `Running`.
    pub fn start(&mut self) -> (writes: Vec<u32>)
        requires
            old(self).wf(),
            old(self).state() == Phase::Armed,
        ensures
            final(self).wf(),
            final(self).state() == Phase::Running,
            final(self).ops() == old(self).ops().push(Op::Start),
            writes@ == seq![CTRL_RESET, CTRL_ENABLE],
    {
        proof {
            assert(self.history@.push(Op::Start).drop_last() =~= self.history@);
        }
        self.phase = Phase::Running;
        self.control = CTRL_ENABLE;
        self.history = Ghost(self.history@.push(Op::Start));
        vec![CTRL_RESET, CTRL_ENABLE]
    }

    /// Sets the freeze bit in the control value, which stops the accumulators
    /// and loads them for reading: `Running` to `Frozen`.
    pub fn freeze(&mut self) -> (writes: Vec<u32>)
        requires
            old(self).wf(),
            old(self).state() == Phase::Running,
        ensures
            final(self).wf(),
            final(self).state() == Phase::Frozen,
            final(self).ops() == old(self).ops().push(Op::Freeze),
            writes@ == seq![old(self).last_control() | CTRL_FREEZE],
            writes@ == seq![CTRL_ENABLE | CTRL_FREEZE],
    {
        proof {
            assert(self.history@.push(Op::Freeze).drop_last() =~= self.history@);
        }
        let value = self.control | CTRL_FREEZE;
        self.phase = Phase::Frozen;
        self.control = value;
        self.history = Ghost(self.history@.push(Op::Freeze));
        vec![value]
    }

    /// Derives the summary of the frozen accumulators `raw`; stays `Frozen`.
    pub fn collect(&mut self, raw: &RawCounters) -> (r: ProfileResult)
        requires
            old(self).wf(),
            old(self).state() == Phase::Frozen,
        ensures
            final(self).wf(),
            final(self).state() == Phase::Frozen,
            final(self).ops() == old(self).ops().push(Op::Read),
            r == profile_of(*raw),
    {
        proof {
            assert(self.history@.push(Op::Read).drop_last() =~= self.history@);
        }
        self.history = Ghost(self.history@.push(Op::Read));
        ProfileResult::from_counters(raw)
    }

    /// Disables the accumulators: `Frozen` to `Idle`, ready for the next cycle.
    pub fn stop(&mut self) -> (writes: Vec<u32>)
        requires
            old(self).wf(),
            old(self).state() == Phase::Frozen,
        ensures
            final(self).wf(),
            final(self).state() == Phase::Idle,
            final(self).ops() == old(self).ops().push(Op::Stop),
            writes@ == seq![CTRL_DISABLE],
    {
        proof {
            assert(self.history@.push(Op::Stop).drop_last() =~= self.history@);
        }
        self.phase = Phase::Idle;
        self.control = CTRL_DISABLE;
        self.history = Ghost(self.history@.push(Op::Stop));
        vec![CTRL_DISABLE]
    }

    /// No sampler has frozen its counters other than right after starting
    /// them, nor read them other than after a start and a freeze with nothing
    /// but reads since.
    pub proof fn lemma_never_reads_before_start(&self, i: int)
        requires
            self.wf(),
            0 <= i < self.ops().len(),
        ensures
            self.ops()[i] == Op::Freeze ==> i > 0 && self.ops()[i - 1] == Op::Start,
            self.ops()[i] == Op::Read ==> started_then_frozen(self.ops(), i),
    {
        lemma_counters_read_only_after_start(self.ops(), i);
    }
}

} // verus!
