use vstd::prelude::*;
use crate::mode::{
    fixed_governor, fixed_payload, gmode_ops, inverse_op, mode_ops, mode_writes, toggle_gmode,
    FanMode, Governor, Op, Payload,
};
use crate::platform::{any_written, governor_result, GovernorError, PolicyWrite};

verus! {

/// Why applying a profile failed. Writes that already took effect are not undone.
#[derive(Debug, Clone, Copy, PartialEq, Eq, Structural)]
pub enum ApplyError {
    /// A write to the ACPI call interface failed; the rest of the sequence was abandoned.
    AcpiFailed,
    /// Every firmware write succeeded but the governor could not be set.
    GovernorFailed(GovernorError),
}

/// What the platform has to do next for a profile change.
#[derive(Debug, Clone, Copy, PartialEq, Eq)]
pub enum Step {
    /// Write the G-Mode query payload, then read the interface back.
    Query,
    /// Perform this write.
    Perform(Op),
    /// The change is over, with this outcome.
    Finished(Result<(), ApplyError>),
}

/// What the platform reports after doing a step.
#[derive(Debug, Clone, Copy, PartialEq, Eq)]
pub enum Event {
    /// The G-Mode bit as read back (see `is_gmode_on`).
    Queried(bool),
    /// Whether an ACPI write succeeded.
    AcpiWritten(bool),
    /// The outcome of a governor change (see `governor_outcome`).
    GovernorApplied(Result<(), GovernorError>),
}

/// A profile change in progress.
pub struct ModeRun {
    mode: FanMode,
    gmode_on: Option<bool>,
    plan: Vec<Op>,
    done: usize,
    outcome: Option<Result<(), ApplyError>>,
}

/// The abstract state of a profile change: the mode asked for, the G-Mode bit
/// once queried, the writes to perform, how many of them succeeded, and the
/// outcome once known.
pub struct RunView {
    pub mode: FanMode,
    pub gmode_on: Option<bool>,
    pub plan: Seq<Op>,
    pub done: int,
    pub outcome: Option<Result<(), ApplyError>>,
}

impl View for ModeRun {
    type V = RunView;

    closed spec fn view(&self) -> RunView {
        RunView {
            mode: self.mode,
            gmode_on: self.gmode_on,
            plan: self.plan@,
            done: self.done as int,
            outcome: self.outcome,
        }
    }
}

/// Only G-Mode reads the hardware before writing.
pub open spec fn awaiting_query(v: RunView) -> bool {
    v.mode == FanMode::GMode && v.gmode_on is None
}

pub open spec fn run_wf(v: RunView) -> bool {
    &&& 0 <= v.done <= v.plan.len()
    &&& v.mode != FanMode::GMode ==> v.gmode_on is None
    &&& if awaiting_query(v) {
        v.plan.len() == 0 && v.done == 0 && v.outcome is None
    } else {
        &&& v.plan == mode_ops(v.mode, v.gmode_on == Some(true))
        &&& v.outcome is None ==> v.done < v.plan.len()
    }
}

/// The state in which a change to `m` begins.
pub open spec fn start(m: FanMode) -> RunView {
    RunView {
        mode: m,
        gmode_on: None,
        plan: if m == FanMode::GMode {
            Seq::empty()
        } else {
            mode_ops(m, false)
        },
        done: 0,
        outcome: None,
    }
}

pub open spec fn next_of(v: RunView) -> Step {
    match v.outcome {
        Some(o) => Step::Finished(o),
        None => if awaiting_query(v) {
            Step::Query
        } else {
            Step::Perform(v.plan[v.done])
        },
    }
}

pub open spec fn governor_to_apply(r: Result<(), GovernorError>) -> Result<(), ApplyError> {
    match r {
        Ok(()) => Ok(()),
        Err(e) => Err(ApplyError::GovernorFailed(e)),
    }
}

/// The state after the platform reports `e`; a report that does not answer
/// the pending step changes nothing.
pub open spec fn after(v: RunView, e: Event) -> RunView {
    match (next_of(v), e) {
        (Step::Query, Event::Queried(b)) => RunView {
            gmode_on: Some(b),
            plan: mode_ops(FanMode::GMode, b),
            ..v
        },
        (Step::Perform(Op::Acpi(_)), Event::AcpiWritten(ok)) => if ok {
            RunView { done: v.done + 1, ..v }
        } else {
            RunView { outcome: Some(Err(ApplyError::AcpiFailed)), ..v }
        },
        (Step::Perform(Op::SetGovernor(_)), Event::GovernorApplied(r)) => RunView {
            done: v.done + 1,
            outcome: Some(governor_to_apply(r)),
            ..v
        },
        _ => v,
    }
}

/// Starts a change to `mode`. Fixed profiles need no query; G-Mode is a toggle
/// and first asks for the current bit.
pub fn apply_mode(mode: FanMode) -> (r: ModeRun)
    ensures
        r@ == start(mode),
        run_wf(r@),
{
    let plan = match mode {
        FanMode::GMode => Vec::new(),
        _ => mode_writes(mode, false),
    };
    let r = ModeRun { mode, gmode_on: None, plan, done: 0, outcome: None };
    assert(r@.plan == start(mode).plan);
    r
}

impl ModeRun {
    #[verifier::type_invariant]
    spec fn inv(&self) -> bool {
        run_wf(self@)
    }

    /// The profile being applied.
    pub fn mode(&self) -> (r: FanMode)
        ensures
            r == self@.mode,
    {
        self.mode
    }

    /// What the platform must do next.
    pub fn next_step(&self) -> (r: Step)
        ensures
            r == next_of(self@),
            run_wf(self@),
    {
        proof {
            use_type_invariant(self);
        }
        match self.outcome {
            Some(o) => Step::Finished(o),
            None => {
                if self.gmode_on.is_none() && matches!(self.mode, FanMode::GMode) {
                    Step::Query
                } else {
                    Step::Perform(self.plan[self.done])
                }
            },
        }
    }

    /// Records what the platform reported for the pending step.
    pub fn advance(&mut self, e: Event)
        ensures
            run_wf(final(self)@),
            final(self)@ == after(old(self)@, e),
    {
        proof {
            use_type_invariant(&*self);
        }
        let step = self.next_step();
        match (step, e) {
            (Step::Query, Event::Queried(b)) => {
                let plan = toggle_gmode(b);
                *self = ModeRun {
                    mode: self.mode,
                    gmode_on: Some(b),
                    plan,
                    done: self.done,
                    outcome: self.outcome,
                };
            },
            (Step::Perform(Op::Acpi(_)), Event::AcpiWritten(ok)) => {
                if ok {
                    self.done = self.done + 1;
                } else {
                    self.outcome = Some(Err(ApplyError::AcpiFailed));
                }
            },
            (Step::Perform(Op::SetGovernor(_)), Event::GovernorApplied(r)) => {
                self.outcome = match r {
                    Ok(()) => Some(Ok(())),
                    Err(g) => Some(Err(ApplyError::GovernorFailed(g))),
                };
                self.done = self.done + 1;
            },
            _ => {},
        }
    }
}

/// A fixed profile issues no query: one write of its firmware payload, then one
/// governor write, then the change ends with the governor's outcome.
pub proof fn lemma_fixed_mode_sequence(m: FanMode, gov: Result<(), GovernorError>)
    requires
        m != FanMode::GMode,
    ensures
        next_of(start(m)) == Step::Perform(Op::Acpi(fixed_payload(m))),
        next_of(after(start(m), Event::AcpiWritten(true))) == Step::Perform(
            Op::SetGovernor(fixed_governor(m)),
        ),
        next_of(after(after(start(m), Event::AcpiWritten(true)), Event::GovernorApplied(gov)))
            == Step::Finished(governor_to_apply(gov)),
{
}

/// G-Mode queries first. Found on, it writes the off payload, the flag-off
/// payload and then `powersave`; found off, the on payload, the flag-on payload
/// and then `performance`.
pub proof fn lemma_gmode_sequence(on: bool)
    ensures
        next_of(start(FanMode::GMode)) == Step::Query,
        gmode_ops(true) == seq![
            Op::Acpi(Payload::GModeOff),
            Op::Acpi(Payload::GModeFlagOff),
            Op::SetGovernor(Governor::Powersave),
        ],
        gmode_ops(false) == seq![
            Op::Acpi(Payload::GModeOn),
            Op::Acpi(Payload::GModeFlagOn),
            Op::SetGovernor(Governor::Performance),
        ],
        next_of(after(start(FanMode::GMode), Event::Queried(on))) == Step::Perform(
            gmode_ops(on)[0],
        ),
        next_of(after(after(start(FanMode::GMode), Event::Queried(on)), Event::AcpiWritten(true)))
            == Step::Perform(gmode_ops(on)[1]),
        next_of(
            after(
                after(after(start(FanMode::GMode), Event::Queried(on)), Event::AcpiWritten(true)),
                Event::AcpiWritten(true),
            ),
        ) == Step::Perform(gmode_ops(on)[2]),
{
}

/// A failed ACPI write ends the change as an ACPI failure: the governor write,
/// like any later step, is never issued.
pub proof fn lemma_acpi_failure_stops(v: RunView, p: Payload, e: Event)
    requires
        run_wf(v),
        next_of(v) == Step::Perform(Op::Acpi(p)),
    ensures
        next_of(after(v, Event::AcpiWritten(false))) == Step::Finished(
            Err::<(), ApplyError>(ApplyError::AcpiFailed),
        ),
        after(after(v, Event::AcpiWritten(false)), e) == after(v, Event::AcpiWritten(false)),
{
}

/// When every firmware write went through but no CPU policy took the governor,
/// the change ends as a governor failure, with the firmware writes left in place.
pub proof fn lemma_no_policy_is_governor_failure(
    v: RunView,
    g: Governor,
    results: Seq<PolicyWrite>,
    e: Event,
)
    requires
        run_wf(v),
        next_of(v) == Step::Perform(Op::SetGovernor(g)),
        !any_written(results),
    ensures
        v.done == v.plan.len() - 1,
        forall|i: int| 0 <= i < v.done ==> v.plan[i] is Acpi,
        next_of(after(v, Event::GovernorApplied(governor_result(true, results))))
            == Step::Finished(
            Err::<(), ApplyError>(ApplyError::GovernorFailed(GovernorError::NoPolicyApplied)),
        ),
        after(after(v, Event::GovernorApplied(governor_result(true, results))), e) == after(
            v,
            Event::GovernorApplied(governor_result(true, results)),
        ),
{
}

/// Applying a fixed profile again repeats the same writes, whatever the
/// hardware reports; applying G-Mode again after it took effect (the bit now
/// reads the other way) issues the inverse of each earlier write.
pub proof fn lemma_repeat_application(m: FanMode, a: bool, b: bool)
    ensures
        m != FanMode::GMode ==> mode_ops(m, a) == mode_ops(m, b) && next_of(start(m))
            != Step::Query,
        m == FanMode::GMode ==> mode_ops(m, !a) == mode_ops(m, a).map_values(
            |o: Op| inverse_op(o),
        ),
        m == FanMode::GMode ==> mode_ops(m, !a) != mode_ops(m, a),
{
    if m == FanMode::GMode {
        assert(mode_ops(m, !a) =~= mode_ops(m, a).map_values(|o: Op| inverse_op(o)));
        assert(mode_ops(m, !a)[0] != mode_ops(m, a)[0]);
    }
}

} // verus!
