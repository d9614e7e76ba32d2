//! The bounded force-retry orchestrator.
//!
//! A forced motion command is retried up to a fixed attempt budget.
//! After each invocation of the motion action the driver polls the
//! height cache; two equal consecutive samples mean the desk has
//! stopped moving (stall detection), and only then is the goal
//! evaluated. A goal not reached starts the next attempt; a spent
//! budget reports exhaustion carrying the attempt count. Transport
//! write failures are not retried here: the driver aborts on them
//! immediately.

use vstd::prelude::*;

verus! {

/// The goal a forced motion command must reach, evaluated on a stalled
/// height sample.
#[derive(Clone, Copy, Debug, PartialEq, Eq, Structural)]
pub enum HeightGoal {
    /// Any height counts as reached.
    Always,
    /// No height counts as reached.
    Never,
    /// Reached below the bound: the sitting side.
    Below(isize),
    /// Reached above the bound: the standing side.
    Above(isize),
}

impl HeightGoal {
    /// Whether a height reaches the goal.
    pub open spec fn spec_accepts(self, h: isize) -> bool {
        match self {
            HeightGoal::Always => true,
            HeightGoal::Never => false,
            HeightGoal::Below(bound) => h < bound,
            HeightGoal::Above(bound) => h > bound,
        }
    }

    /// Decide whether a height reaches the goal.
    pub fn accepts(&self, h: isize) -> (r: bool)
        ensures
            r == self.spec_accepts(h),
    {
        match *self {
            HeightGoal::Always => true,
            HeightGoal::Never => false,
            HeightGoal::Below(bound) => h < bound,
            HeightGoal::Above(bound) => h > bound,
        }
    }
}

/// What the driver must do after handing the orchestrator a height
/// sample.
#[derive(Clone, Copy, Debug, PartialEq, Eq, Structural)]
pub enum ForceVerdict {
    /// The desk is still moving; poll again.
    KeepPolling,
    /// The desk stalled at a height that reaches the goal: success.
    Done,
    /// The desk stalled short of the goal and an attempt is left: begin
    /// the next attempt and invoke the action again.
    Retry,
    /// The desk stalled short of the goal and the budget is spent;
    /// carries the number of attempts made.
    Exhausted { attempts: u8 },
}

/// The force-retry orchestrator: attempt bookkeeping and the last
/// height sample, against a fixed goal and budget.
#[derive(Clone, Copy, Debug)]
pub struct ForceMachine {
    /// How many attempts are allowed in all.
    pub budget: u8,
    /// Attempts begun so far; each one invokes the action once.
    pub attempts: u8,
    /// The previous height sample, for stall detection.
    pub prev: isize,
    /// The goal evaluated on every stalled sample.
    pub goal: HeightGoal,
}

impl ForceMachine {
    /// The orchestrator's invariant: a positive budget never exceeded.
    pub open spec fn wf(self) -> bool {
        &&& self.budget >= 1
        &&& self.attempts <= self.budget
    }

    /// A fresh orchestrator: no attempt begun, stall detection seeded
    /// with the height before any motion.
    pub fn new(budget: u8, goal: HeightGoal, initial_height: isize) -> (r: ForceMachine)
        requires
            budget >= 1,
        ensures
            r == (ForceMachine { budget, attempts: 0, prev: initial_height, goal }),
            r.wf(),
    {
        ForceMachine { budget, attempts: 0, prev: initial_height, goal }
    }

    /// The orchestrator after one more attempt is begun.
    pub open spec fn spec_begin(m: ForceMachine) -> ForceMachine {
        ForceMachine { attempts: (m.attempts + 1) as u8, ..m }
    }

    /// Begin the next attempt; the driver invokes the motion action
    /// exactly once per call. A write failure aborts the whole
    /// operation and is never retried.
    pub fn begin_attempt(&mut self)
        requires
            old(self).wf(),
            old(self).attempts < old(self).budget,
        ensures
            *final(self) == Self::spec_begin(*old(self)),
            final(self).wf(),
    {
        self.attempts = self.attempts + 1;
    }

    /// The orchestrator's reaction to one height sample: a changed
    /// height keeps polling; a stalled height reaching the goal is
    /// success; otherwise an attempt is retried while the budget lasts,
    /// and exhaustion carries the attempt count.
    pub open spec fn spec_observe(m: ForceMachine, h: isize) -> (ForceMachine, ForceVerdict) {
        if h != m.prev {
            (ForceMachine { prev: h, ..m }, ForceVerdict::KeepPolling)
        } else if m.goal.spec_accepts(h) {
            (m, ForceVerdict::Done)
        } else if m.attempts < m.budget {
            (m, ForceVerdict::Retry)
        } else {
            (m, ForceVerdict::Exhausted { attempts: m.attempts })
        }
    }

    /// Hand the orchestrator the next polled height sample.
    pub fn observe(&mut self, h: isize) -> (v: ForceVerdict)
        requires
            old(self).wf(),
        ensures
            *final(self) == Self::spec_observe(*old(self), h).0,
            v == Self::spec_observe(*old(self), h).1,
            final(self).wf(),
    {
        if h != self.prev {
            self.prev = h;
            ForceVerdict::KeepPolling
        } else if self.goal.accepts(h) {
            ForceVerdict::Done
        } else if self.attempts < self.budget {
            ForceVerdict::Retry
        } else {
            ForceVerdict::Exhausted { attempts: self.attempts }
        }
    }
}

/// `n` attempts begun in sequence, with no sample in between that
/// changes the stall seed.
pub open spec fn spec_attempt_rounds(m: ForceMachine, n: nat) -> ForceMachine
    decreases n,
{
    if n == 0 {
        m
    } else {
        ForceMachine::spec_begin(spec_attempt_rounds(m, (n - 1) as nat))
    }
}

/// With a goal that accepts every height, the orchestrator never asks
/// for a second attempt: every sample verdict is to keep polling or
/// success, and the first stalled sample is success. The action runs
/// exactly once: only on the single begun attempt.
pub proof fn lemma_force_always_single_attempt(m: ForceMachine, h: isize)
    requires
        m.wf(),
        m.goal == HeightGoal::Always,
    ensures
        h == m.prev ==> ForceMachine::spec_observe(m, h).1 == ForceVerdict::Done,
        ForceMachine::spec_observe(m, h).1 == ForceVerdict::Done || ForceMachine::spec_observe(
            m,
            h,
        ).1 == ForceVerdict::KeepPolling,
{
}

/// With a goal that accepts no height, every attempt's stalled sample
/// asks for a retry while the budget lasts, and the stalled sample
/// after the last allowed attempt reports exhaustion carrying the full
/// budget: the action runs exactly `budget` times.
pub proof fn lemma_force_never_exhausts(m: ForceMachine, n: nat)
    requires
        m.wf(),
        m.goal == HeightGoal::Never,
        m.attempts == 0,
        n <= m.budget,
    ensures
        spec_attempt_rounds(m, n).attempts == n,
        spec_attempt_rounds(m, n).prev == m.prev,
        spec_attempt_rounds(m, n).budget == m.budget,
        spec_attempt_rounds(m, n).goal == m.goal,
        n < m.budget ==> ForceMachine::spec_observe(
            spec_attempt_rounds(m, n),
            m.prev,
        ).1 == ForceVerdict::Retry,
        n == m.budget ==> ForceMachine::spec_observe(
            spec_attempt_rounds(m, n),
            m.prev,
        ).1 == (ForceVerdict::Exhausted { attempts: m.budget }),
    decreases n,
{
    if n > 0 {
        lemma_force_never_exhausts(m, (n - 1) as nat);
    }
}

} // verus!
