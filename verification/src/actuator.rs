//! The actuator: one motion at a time, as a state machine.
//!
//! The machine decides what is done next; whoever owns the outputs performs
//! each action and tells the machine how it went. Once a direction output is
//! asserted, the actuator does not rest again before both direction outputs
//! were released, also when an output could not be driven on the way.

use vstd::prelude::*;
use crate::command::{Command, Direction};

verus! {

/// Status code of a direction output that could not be driven.
pub const ERRNO_GPIO_UPDN: u8 = 1;

/// Status code of a status indicator that could not be driven.
pub const ERRNO_GPIO_LED: u8 = 2;

/// One thing to do to the outputs.
#[derive(Debug, PartialEq, Eq, Structural, Clone, Copy)]
pub enum Action {
    /// Assert the "up" output.
    AssertUp,
    /// Assert the "down" output.
    AssertDown,
    /// Drive the status indicator low: a motion is under way.
    StatusBusy,
    /// Let the given number of milliseconds pass.
    Wait(u16),
    /// De-assert the "up" output.
    ReleaseUp,
    /// De-assert the "down" output.
    ReleaseDown,
    /// Drive the status indicator high: the actuator rests.
    StatusIdle,
}

/// The step of a motion that is due next.
#[derive(Debug, PartialEq, Eq, Structural, Clone, Copy)]
pub enum Stage {
    /// Assert the output of the direction.
    Assert,
    /// Show the motion on the status indicator.
    Busy,
    /// Wait for the duration of the motion.
    Hold,
    /// De-assert the "up" output.
    ReleaseUp,
    /// De-assert the "down" output.
    ReleaseDown,
    /// Show on the status indicator that the motion is over.
    Ready,
}

/// An output that could not be driven.
#[derive(Debug, PartialEq, Eq, Structural, Clone, Copy)]
pub enum Fault {
    /// One of the two direction outputs.
    UpDown,
    /// The status indicator.
    Led,
}

/// The actuator is at rest or carries out one motion.
#[derive(Debug, PartialEq, Eq, Structural, Clone, Copy)]
pub enum Actuator {
    /// At rest: the next command may start.
    Idle,
    /// A motion is under way.
    Actuating {
        /// The direction of the motion.
        direction: Direction,
        /// The milliseconds that the motion has yet to last.
        remaining: u16,
        /// The step that is due next.
        stage: Stage,
        /// The first fault of the motion, if an output could not be driven.
        fault: Option<Fault>,
    },
}

/// The state of the three outputs.
pub struct Outputs {
    /// The "up" output is asserted.
    pub up: bool,
    /// The "down" output is asserted.
    pub down: bool,
    /// The status indicator shows a motion.
    pub busy: bool,
}

/// The action of a stage.
pub open spec fn stage_action(direction: Direction, remaining: u16, stage: Stage) -> Action {
    match stage {
        Stage::Assert => match direction {
            Direction::Up => Action::AssertUp,
            Direction::Down => Action::AssertDown,
        },
        Stage::Busy => Action::StatusBusy,
        Stage::Hold => Action::Wait(remaining),
        Stage::ReleaseUp => Action::ReleaseUp,
        Stage::ReleaseDown => Action::ReleaseDown,
        Stage::Ready => Action::StatusIdle,
    }
}

/// The fault that a failure at a stage amounts to. Waiting cannot fail.
pub open spec fn stage_fault(stage: Stage) -> Option<Fault> {
    match stage {
        Stage::Assert => Some(Fault::UpDown),
        Stage::Busy => Some(Fault::Led),
        Stage::Hold => None,
        Stage::ReleaseUp => Some(Fault::UpDown),
        Stage::ReleaseDown => Some(Fault::UpDown),
        Stage::Ready => Some(Fault::Led),
    }
}

/// The actions of one whole motion, in order.
pub open spec fn plan(direction: Direction, ms: u16) -> Seq<Action> {
    seq![
        stage_action(direction, ms, Stage::Assert),
        Action::StatusBusy,
        Action::Wait(ms),
        Action::ReleaseUp,
        Action::ReleaseDown,
        Action::StatusIdle,
    ]
}

/// The status code of a fault.
pub open spec fn fault_code(fault: Fault) -> u8 {
    match fault {
        Fault::UpDown => ERRNO_GPIO_UPDN,
        Fault::Led => ERRNO_GPIO_LED,
    }
}

/// The status byte for the end of a motion: zero for success, else the code
/// of the fault.
pub open spec fn status_of(outcome: Result<(), Fault>) -> u8 {
    match outcome {
        Ok(_) => 0,
        Err(fault) => fault_code(fault),
    }
}

impl Outputs {
    /// No output is asserted and the status indicator shows no motion.
    pub open spec fn at_rest(self) -> bool {
        !self.up && !self.down && !self.busy
    }

    /// The outputs after `action` was attempted. An output counts as asserted
    /// once its assertion succeeded, and as released as soon as its release
    /// was attempted, whether or not that succeeded.
    pub open spec fn apply(self, action: Action, success: bool) -> Outputs {
        match action {
            Action::AssertUp => Outputs { up: self.up || success, ..self },
            Action::AssertDown => Outputs { down: self.down || success, ..self },
            Action::StatusBusy => Outputs { busy: self.busy || success, ..self },
            Action::Wait(_) => self,
            Action::ReleaseUp => Outputs { up: false, ..self },
            Action::ReleaseDown => Outputs { down: false, ..self },
            Action::StatusIdle => Outputs { busy: false, ..self },
        }
    }
}

impl Actuator {
    /// The state in which a motion begins.
    pub open spec fn started(direction: Direction, ms: u16) -> Actuator {
        Actuator::Actuating { direction, remaining: ms, stage: Stage::Assert, fault: None }
    }

    /// A state that a motion can be in: a fault is on record only once the
    /// outputs are being released, and by then nothing of the duration is
    /// left.
    pub open spec fn wf(self) -> bool {
        match self {
            Actuator::Idle => true,
            Actuator::Actuating { remaining, stage, fault, .. } => match stage {
                Stage::Assert => fault is None,
                Stage::Busy => fault is None,
                Stage::Hold => fault is None,
                Stage::ReleaseUp => remaining == 0,
                Stage::ReleaseDown => remaining == 0,
                Stage::Ready => remaining == 0,
            },
        }
    }

    /// The action that is due, if a motion is under way.
    pub open spec fn due(self) -> Option<Action> {
        match self {
            Actuator::Idle => None,
            Actuator::Actuating { direction, remaining, stage, .. } => Some(
                stage_action(direction, remaining, stage),
            ),
        }
    }

    /// Whether a report of `success` for the due action tells of a fault.
    pub open spec fn fails(self, success: bool) -> bool {
        match self {
            Actuator::Idle => false,
            Actuator::Actuating { stage, .. } => !success && stage_fault(stage) is Some,
        }
    }

    /// The first fault of the motion once the due action was reported: the
    /// one on record, else the one that the report tells of.
    pub open spec fn noted(self, success: bool) -> Option<Fault> {
        match self {
            Actuator::Idle => None,
            Actuator::Actuating { stage, fault, .. } => if fault is Some {
                fault
            } else if self.fails(success) {
                stage_fault(stage)
            } else {
                None
            },
        }
    }

    /// The state after the due action was reported done, with or without
    /// success.
    ///
    /// If the output of the direction could not be asserted, nothing is
    /// asserted and the motion ends on the spot. After that a fault is put on
    /// record and the motion is wound up: what is left of the duration is
    /// given up, both direction outputs are released and the status indicator
    /// is reset, and only then does the actuator rest.
    pub open spec fn after(self, success: bool) -> Actuator {
        match self {
            Actuator::Idle => Actuator::Idle,
            Actuator::Actuating { direction, remaining, stage, .. } => {
                let fault = self.noted(success);
                match stage {
                    Stage::Assert => if self.fails(success) {
                        Actuator::Idle
                    } else {
                        Actuator::Actuating { direction, remaining, stage: Stage::Busy, fault }
                    },
                    Stage::Busy => if self.fails(success) {
                        Actuator::Actuating {
                            direction,
                            remaining: 0,
                            stage: Stage::ReleaseUp,
                            fault,
                        }
                    } else {
                        Actuator::Actuating { direction, remaining, stage: Stage::Hold, fault }
                    },
                    Stage::Hold => Actuator::Actuating {
                        direction,
                        remaining: 0,
                        stage: Stage::ReleaseUp,
                        fault,
                    },
                    Stage::ReleaseUp => Actuator::Actuating {
                        direction,
                        remaining,
                        stage: Stage::ReleaseDown,
                        fault,
                    },
                    Stage::ReleaseDown => Actuator::Actuating {
                        direction,
                        remaining,
                        stage: Stage::Ready,
                        fault,
                    },
                    Stage::Ready => Actuator::Idle,
                }
            },
        }
    }

    /// How the motion ended, if the report of `success` ends it: with the
    /// first fault of the motion, or well if there was none.
    pub open spec fn outcome(self, success: bool) -> Option<Result<(), Fault>> {
        match self {
            Actuator::Idle => None,
            Actuator::Actuating { stage, .. } => if self.after(success) is Idle {
                match self.noted(success) {
                    Some(fault) => Some(Err(fault)),
                    None => Some(Ok(())),
                }
            } else {
                None
            },
        }
    }

    /// The actions of the next `steps` steps, each of which succeeds.
    pub open spec fn trace(self, steps: nat) -> Seq<Action>
        decreases steps,
    {
        if steps == 0 || self is Idle {
            Seq::empty()
        } else {
            seq![self.due()->0] + self.after(true).trace((steps - 1) as nat)
        }
    }

    /// The state after `steps` steps, each of which succeeds.
    pub open spec fn after_steps(self, steps: nat) -> Actuator
        decreases steps,
    {
        if steps == 0 {
            self
        } else {
            self.after(true).after_steps((steps - 1) as nat)
        }
    }

    /// The state after one step for each of `reports`, which tell in turn
    /// whether the due action succeeded.
    pub open spec fn run(self, reports: Seq<bool>) -> Actuator
        decreases reports.len(),
    {
        if reports.len() == 0 {
            self
        } else {
            self.after(reports.first()).run(reports.drop_first())
        }
    }

    /// The actions that were due in the steps of `run`, in order. None is due
    /// once the actuator rests.
    pub open spec fn issued(self, reports: Seq<bool>) -> Seq<Action>
        decreases reports.len(),
    {
        if reports.len() == 0 || self is Idle {
            Seq::empty()
        } else {
            seq![self.due()->0] + self.after(reports.first()).issued(reports.drop_first())
        }
    }

    /// The outputs after the steps of `run`, from `outputs` at the start.
    pub open spec fn drive(self, outputs: Outputs, reports: Seq<bool>) -> Outputs
        decreases reports.len(),
    {
        if reports.len() == 0 || self is Idle {
            outputs
        } else {
            self.after(reports.first()).drive(
                outputs.apply(self.due()->0, reports.first()),
                reports.drop_first(),
            )
        }
    }

    /// The state of the outputs on entry to this state of a motion that began
    /// with the outputs at rest. The status indicator shows the motion unless
    /// the fault on record is that it could not be made to.
    pub open spec fn outputs(self) -> Outputs {
        match self {
            Actuator::Idle => Outputs { up: false, down: false, busy: false },
            Actuator::Actuating { direction, stage, fault, .. } => match stage {
                Stage::Assert => Outputs { up: false, down: false, busy: false },
                Stage::Busy => Outputs {
                    up: direction == Direction::Up,
                    down: direction == Direction::Down,
                    busy: false,
                },
                Stage::Hold => Outputs {
                    up: direction == Direction::Up,
                    down: direction == Direction::Down,
                    busy: true,
                },
                Stage::ReleaseUp => Outputs {
                    up: direction == Direction::Up,
                    down: direction == Direction::Down,
                    busy: fault != Some(Fault::Led),
                },
                Stage::ReleaseDown => Outputs {
                    up: false,
                    down: direction == Direction::Down,
                    busy: fault != Some(Fault::Led),
                },
                Stage::Ready => Outputs {
                    up: false,
                    down: false,
                    busy: fault != Some(Fault::Led),
                },
            },
        }
    }

    /// A motion that does not fail performs exactly its plan, in order, and
    /// the actuator rests again after the last action and not before.
    pub proof fn lemma_motion_runs_plan(direction: Direction, ms: u16)
        ensures
            Actuator::started(direction, ms).trace(6) == plan(direction, ms),
            Actuator::started(direction, ms).after_steps(6) == Actuator::Idle,
            forall|steps: nat|
                steps < 6 ==> #[trigger] Actuator::started(direction, ms).after_steps(steps)
                    is Actuating,
    {
        let start = Actuator::started(direction, ms);
        reveal_with_fuel(Actuator::trace, 8);
        reveal_with_fuel(Actuator::after_steps, 8);
        assert(start.trace(6) =~= plan(direction, ms));
        assert forall|steps: nat| steps < 6 implies #[trigger] start.after_steps(steps)
            is Actuating by {
            assert(steps == 0 || steps == 1 || steps == 2 || steps == 3 || steps == 4 || steps
                == 5);
        }
    }

    /// The wait of a motion that does not fail lasts the whole duration, and
    /// nothing of the duration is left when the outputs are released.
    pub proof fn lemma_wait_is_whole(direction: Direction, ms: u16)
        ensures
            Actuator::started(direction, ms).after_steps(2).due() == Some(Action::Wait(ms)),
            Actuator::started(direction, ms).after_steps(3) == (Actuator::Actuating {
                direction,
                remaining: 0,
                stage: Stage::ReleaseUp,
                fault: None,
            }),
    {
        reveal_with_fuel(Actuator::after_steps, 4);
    }

    /// A motion begins in a well-formed state, and every step keeps the state
    /// well formed, whatever is reported.
    pub proof fn lemma_wf_kept(self, success: bool)
        requires
            self.wf(),
        ensures
            self.after(success).wf(),
            forall|direction: Direction, ms: u16| #[trigger] Actuator::started(direction, ms).wf(),
    {
    }

    /// The motion ends only with the first or the last action. Its end is
    /// reported with the first fault of the motion, or as a success if every
    /// action succeeded.
    pub proof fn lemma_outcome(self, success: bool)
        ensures
            self.outcome(success) is Some <==> self is Actuating && self.after(success) is Idle,
            self matches Actuator::Actuating { stage, .. } ==> (self.after(success) is Idle
                <==> stage == Stage::Ready || (stage == Stage::Assert && !success)),
            self.outcome(success) == Some(Ok::<(), Fault>(())) ==> self.noted(success) is None,
            self.outcome(success) matches Some(Err(fault)) ==> self.noted(success) == Some(fault),
    {
    }

    /// Each step takes the outputs from those of the state before to those
    /// of the state after, whether the action succeeded or not.
    pub proof fn lemma_outputs_follow(self, success: bool)
        requires
            self.wf(),
            self is Actuating,
        ensures
            self.outputs().apply(self.due()->0, success) == self.after(success).outputs(),
    {
    }

    /// The two direction outputs are never asserted together. While the
    /// actuator rests nothing is asserted; while it waits, the output of the
    /// direction is asserted and the status indicator shows the motion.
    pub proof fn lemma_outputs_exclusive(self)
        ensures
            !(self.outputs().up && self.outputs().down),
            self is Idle ==> self.outputs().at_rest(),
            self matches Actuator::Actuating { direction, stage, .. } ==> (stage == Stage::Hold
                ==> self.outputs().busy && self.outputs().up == (direction == Direction::Up)
                && self.outputs().down == (direction == Direction::Down)),
    {
    }

    /// Whatever is reported of each action, the outputs stay those of the
    /// state: the two direction outputs are never asserted together, and
    /// whenever the actuator rests again nothing is asserted.
    pub proof fn lemma_outputs_track(self, reports: Seq<bool>)
        requires
            self.wf(),
        ensures
            self.run(reports).wf(),
            self.drive(self.outputs(), reports) == self.run(reports).outputs(),
            !(self.drive(self.outputs(), reports).up && self.drive(self.outputs(), reports).down),
            self.run(reports) is Idle ==> self.drive(self.outputs(), reports).at_rest(),
        decreases reports.len(),
    {
        if reports.len() > 0 {
            let next = self.after(reports.first());
            self.lemma_wf_kept(reports.first());
            next.lemma_outputs_track(reports.drop_first());
            if self is Actuating {
                self.lemma_outputs_follow(reports.first());
            }
        }
        self.run(reports).lemma_outputs_exclusive();
    }

    /// Once the actuator rests, it stays at rest and nothing more is due.
    pub proof fn lemma_rest_lasts(reports: Seq<bool>)
        ensures
            Actuator::Idle.run(reports) == Actuator::Idle,
            Actuator::Idle.issued(reports) == Seq::<Action>::empty(),
        decreases reports.len(),
    {
        if reports.len() > 0 {
            Self::lemma_rest_lasts(reports.drop_first());
        }
    }

    /// Once the output of the direction was asserted, the actuator does not
    /// rest again before both direction outputs were released and the status
    /// indicator reset, whatever is reported of each action: these are the
    /// last three actions of the motion, and no output is asserted after the
    /// first.
    pub proof fn lemma_released_before_rest(direction: Direction, ms: u16, reports: Seq<bool>)
        requires
            reports.len() > 0,
            reports.first(),
            Actuator::started(direction, ms).run(reports) is Idle,
        ensures
            ({
                let actions = Actuator::started(direction, ms).issued(reports);
                &&& 5 <= actions.len() <= 6
                &&& actions.len() <= reports.len()
                &&& actions[0] == stage_action(direction, ms, Stage::Assert)
                &&& actions[actions.len() - 3] == Action::ReleaseUp
                &&& actions[actions.len() - 2] == Action::ReleaseDown
                &&& actions[actions.len() - 1] == Action::StatusIdle
                &&& forall|i: int|
                    0 < i < actions.len() ==> actions[i] != Action::AssertUp && actions[i]
                        != Action::AssertDown
            }),
    {
        let start = Actuator::started(direction, ms);
        let r1 = reports.drop_first();
        let s1 = start.after(true);
        assert(start.run(reports) == s1.run(r1));
        assert(start.issued(reports) == seq![start.due()->0] + s1.issued(r1));
        assert(r1.len() > 0);
        let r2 = r1.drop_first();
        let s2 = s1.after(r1.first());
        assert(s1.run(r1) == s2.run(r2));
        assert(s1.issued(r1) == seq![Action::StatusBusy] + s2.issued(r2));
        assert(r2.len() > 0);
        let r3 = r2.drop_first();
        let s3 = s2.after(r2.first());
        assert(s2.run(r2) == s3.run(r3));
        assert(r3.len() > 0);
        let r4 = r3.drop_first();
        let s4 = s3.after(r3.first());
        assert(s3.run(r3) == s4.run(r4));
        assert(r4.len() > 0);
        let r5 = r4.drop_first();
        let s5 = s4.after(r4.first());
        assert(s4.run(r4) == s5.run(r5));
        let actions = start.issued(reports);
        if r1.first() {
            // The status indicator was set: wait, then release.
            assert(r5.len() > 0);
            let r6 = r5.drop_first();
            let s6 = s5.after(r5.first());
            assert(s5.run(r5) == s6.run(r6));
            assert(s6 == Actuator::Idle);
            Self::lemma_rest_lasts(r6);
            assert(s5.issued(r5) == seq![Action::StatusIdle] + s6.issued(r6));
            assert(s4.issued(r4) == seq![Action::ReleaseDown] + s5.issued(r5));
            assert(s3.issued(r3) == seq![Action::ReleaseUp] + s4.issued(r4));
            assert(s2.issued(r2) == seq![Action::Wait(ms)] + s3.issued(r3));
            assert(actions =~= seq![
                stage_action(direction, ms, Stage::Assert),
                Action::StatusBusy,
                Action::Wait(ms),
                Action::ReleaseUp,
                Action::ReleaseDown,
                Action::StatusIdle,
            ]);
        } else {
            // The status indicator could not be set: release at once.
            assert(s5 == Actuator::Idle);
            Self::lemma_rest_lasts(r5);
            assert(s4.issued(r4) == seq![Action::StatusIdle] + s5.issued(r5));
            assert(s3.issued(r3) == seq![Action::ReleaseDown] + s4.issued(r4));
            assert(s2.issued(r2) == seq![Action::ReleaseUp] + s3.issued(r3));
            assert(actions =~= seq![
                stage_action(direction, ms, Stage::Assert),
                Action::StatusBusy,
                Action::ReleaseUp,
                Action::ReleaseDown,
                Action::StatusIdle,
            ]);
        }
    }

    /// An actuator at rest.
    pub fn new() -> (actuator: Actuator)
        ensures
            actuator == Actuator::Idle,
    {
        Actuator::Idle
    }

    /// Whether the actuator rests, so that the next command may start.
    pub fn is_idle(&self) -> (idle: bool)
        ensures
            idle == (*self is Idle),
    {
        match self {
            Actuator::Idle => true,
            Actuator::Actuating { .. } => false,
        }
    }

    /// Starts the motion of `command` if the actuator rests. A motion under
    /// way is never replaced: the command is then refused and nothing changes.
    pub fn begin(&mut self, command: Command) -> (accepted: bool)
        ensures
            accepted == (*old(self) is Idle),
            accepted ==> *final(self) == Actuator::started(
                crate::command::direction_of(command@),
                crate::command::duration_ms(command@) as u16,
            ),
            !accepted ==> *final(self) == *old(self),
    {
        if self.is_idle() {
            *self = Actuator::Actuating {
                direction: command.get_direction(),
                remaining: command.get_ms(),
                stage: Stage::Assert,
                fault: None,
            };
            true
        } else {
            false
        }
    }

    /// The action to perform next, or nothing while the actuator rests.
    pub fn action(&self) -> (action: Option<Action>)
        ensures
            action == self.due(),
    {
        match self {
            Actuator::Idle => None,
            Actuator::Actuating { direction, remaining, stage, .. } => Some(
                match stage {
                    Stage::Assert => match direction {
                        Direction::Up => Action::AssertUp,
                        Direction::Down => Action::AssertDown,
                    },
                    Stage::Busy => Action::StatusBusy,
                    Stage::Hold => Action::Wait(*remaining),
                    Stage::ReleaseUp => Action::ReleaseUp,
                    Stage::ReleaseDown => Action::ReleaseDown,
                    Stage::Ready => Action::StatusIdle,
                },
            ),
        }
    }

    /// Takes note that the due action was performed, with or without
    /// success, and moves on. Returns how the motion ended, if it ended.
    ///
    /// If the output of the direction could not be asserted, the motion ends
    /// at once with that fault. A later fault is put on record and the motion
    /// is wound up: both direction outputs are released and the status
    /// indicator is reset before the actuator rests, and the motion then ends
    /// with the first fault on record.
    pub fn complete(&mut self, success: bool) -> (outcome: Option<Result<(), Fault>>)
        ensures
            *final(self) == old(self).after(success),
            outcome == old(self).outcome(success),
    {
        match *self {
            Actuator::Idle => None,
            Actuator::Actuating { direction, remaining, stage, fault } => {
                let failed = !success && match stage {
                    Stage::Hold => false,
                    _ => true,
                };
                let fault = match fault {
                    Some(first) => Some(first),
                    None => if failed {
                        match stage {
                            Stage::Busy => Some(Fault::Led),
                            Stage::Ready => Some(Fault::Led),
                            _ => Some(Fault::UpDown),
                        }
                    } else {
                        None
                    },
                };
                let next = match stage {
                    Stage::Assert => if failed {
                        None
                    } else {
                        Some((Stage::Busy, remaining))
                    },
                    Stage::Busy => if failed {
                        Some((Stage::ReleaseUp, 0))
                    } else {
                        Some((Stage::Hold, remaining))
                    },
                    Stage::Hold => Some((Stage::ReleaseUp, 0)),
                    Stage::ReleaseUp => Some((Stage::ReleaseDown, remaining)),
                    Stage::ReleaseDown => Some((Stage::Ready, remaining)),
                    Stage::Ready => None,
                };
                match next {
                    Some((stage, remaining)) => {
                        *self = Actuator::Actuating { direction, remaining, stage, fault };
                        None
                    },
                    None => {
                        *self = Actuator::Idle;
                        match fault {
                            Some(fault) => Some(Err(fault)),
                            None => Some(Ok(())),
                        }
                    },
                }
            },
        }
    }
}

impl Fault {
    /// The status code of the fault.
    pub fn errno(&self) -> (code: u8)
        ensures
            code == fault_code(*self),
            code != 0,
    {
        match self {
            Fault::UpDown => ERRNO_GPIO_UPDN,
            Fault::Led => ERRNO_GPIO_LED,
        }
    }
}

/// The status byte that answers a command: zero when its motion was carried
/// out, else the code of the fault that ended it.
pub fn status_byte(outcome: &Result<(), Fault>) -> (status: u8)
    ensures
        status == status_of(*outcome),
        status == 0 <==> *outcome is Ok,
{
    match outcome {
        Ok(_) => 0,
        Err(fault) => fault.errno(),
    }
}

} // verus!
