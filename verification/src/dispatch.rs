//! From received bytes to motions: commands wait in a bounded queue and are
//! carried out in the order of arrival, one at a time.
//!
//! The producer only calls `enqueue` and `receive`, which leave the actuator
//! alone; the consumer only calls `poll` and `complete`, which never add to
//! the queue.

use vstd::prelude::*;
use crate::actuator::{plan, Action, Actuator, Fault, Outputs};
use crate::command::{byte_as_signed, direction_of, duration_ms, Command};
use crate::ringbuf::{RingBuf, CAPACITY};

verus! {

/// Status code of a command that was dropped because the queue was full.
pub const ERRNO_QUEUE_FULL: u8 = 4;

/// Why a received byte was not queued.
#[derive(Debug, PartialEq, Eq, Structural, Clone, Copy)]
pub enum DispatchError {
    /// As many commands wait as the queue holds; the command is dropped.
    QueueFull,
}

/// The state in which the motion of the command `byte` begins.
pub open spec fn motion_of(byte: u8) -> Actuator {
    Actuator::started(
        direction_of(byte_as_signed(byte)),
        duration_ms(byte_as_signed(byte)) as u16,
    )
}

/// The actions of the motion of the command `byte`.
pub open spec fn plan_of(byte: u8) -> Seq<Action> {
    plan(direction_of(byte_as_signed(byte)), duration_ms(byte_as_signed(byte)) as u16)
}

/// The actions of the motions of the commands `queue`, one motion after the
/// other in the order of the queue.
pub open spec fn schedule(queue: Seq<u8>) -> Seq<Action>
    decreases queue.len(),
{
    if queue.len() == 0 {
        Seq::empty()
    } else {
        plan_of(queue.first()) + schedule(queue.drop_first())
    }
}

/// The pending commands and the actuator.
pub struct Pipeline {
    /// The bytes of the commands that wait, oldest first.
    pub queue: Seq<u8>,
    /// The state of the actuator.
    pub actuator: Actuator,
}

impl Pipeline {
    /// Nothing waits and the actuator rests.
    pub open spec fn settled(self) -> bool {
        self.queue.len() == 0 && self.actuator is Idle
    }

    /// Whether one more command can wait.
    pub open spec fn has_room(self) -> bool {
        self.queue.len() < CAPACITY
    }

    /// The command `byte` joins the queue behind those that wait, unless the
    /// queue is full.
    pub open spec fn enqueue(self, byte: u8) -> Pipeline {
        if self.has_room() {
            Pipeline { queue: self.queue.push(byte), actuator: self.actuator }
        } else {
            self
        }
    }

    /// The oldest command leaves the queue and its motion begins, if the
    /// actuator rests and a command waits.
    pub open spec fn poll(self) -> Pipeline {
        if self.actuator is Idle && self.queue.len() > 0 {
            Pipeline { queue: self.queue.drop_first(), actuator: motion_of(self.queue.first()) }
        } else {
            self
        }
    }

    /// The due action was performed.
    pub open spec fn complete(self, success: bool) -> Pipeline {
        Pipeline { queue: self.queue, actuator: self.actuator.after(success) }
    }

    /// The actions of the next `steps` rounds of the consumer, each a poll
    /// and an action that succeeds.
    pub open spec fn trace(self, steps: nat) -> Seq<Action>
        decreases steps,
    {
        if steps == 0 || self.poll().actuator is Idle {
            Seq::empty()
        } else {
            seq![self.poll().actuator.due()->0] + self.poll().complete(true).trace(
                (steps - 1) as nat,
            )
        }
    }

    /// The pipeline after `steps` rounds of the consumer, each a poll and an
    /// action that succeeds.
    pub open spec fn after_steps(self, steps: nat) -> Pipeline
        decreases steps,
    {
        if steps == 0 {
            self
        } else {
            self.poll().complete(true).after_steps((steps - 1) as nat)
        }
    }

    /// The consumer never adds to the queue, and takes a command from it only
    /// while the actuator rests: no motion is cut short by a later command.
    pub proof fn lemma_one_in_flight(self, success: bool)
        ensures
            self.actuator is Actuating ==> self.poll() == self,
            self.poll().queue.len() <= self.queue.len(),
            self.complete(success).queue == self.queue,
            self.actuator is Idle ==> self.complete(success) == self,
    {
    }

    /// The producer never touches the actuator or the commands that already
    /// wait.
    pub proof fn lemma_enqueue_appends(self, byte: u8)
        ensures
            self.enqueue(byte).actuator == self.actuator,
            self.has_room() ==> self.enqueue(byte).queue == self.queue.push(byte),
            !self.has_room() ==> self.enqueue(byte) == self,
    {
    }

    /// With the actuator at rest, the first six rounds carry out the motion
    /// of the oldest command, and the rest of the queue follows.
    proof fn lemma_first_motion(self, steps: nat)
        requires
            self.actuator is Idle,
            self.queue.len() > 0,
            steps >= 6,
        ensures
            self.trace(steps) == plan_of(self.queue.first()) + (Pipeline {
                queue: self.queue.drop_first(),
                actuator: Actuator::Idle,
            }).trace((steps - 6) as nat),
            self.after_steps(steps) == (Pipeline {
                queue: self.queue.drop_first(),
                actuator: Actuator::Idle,
            }).after_steps((steps - 6) as nat),
    {
        let rest = Pipeline { queue: self.queue.drop_first(), actuator: Actuator::Idle };
        reveal_with_fuel(Pipeline::trace, 7);
        reveal_with_fuel(Pipeline::after_steps, 7);
        assert(self.trace(steps) =~= plan_of(self.queue.first()) + rest.trace(
            (steps - 6) as nat,
        ));
    }

    /// Commands are carried out strictly in the order of arrival, each motion
    /// whole before the next begins; then nothing waits and the actuator
    /// rests.
    pub proof fn lemma_runs_in_order(queue: Seq<u8>)
        ensures
            (Pipeline { queue, actuator: Actuator::Idle }).trace(6 * queue.len()) == schedule(
                queue,
            ),
            (Pipeline { queue, actuator: Actuator::Idle }).after_steps(6 * queue.len()).settled(),
        decreases queue.len(),
    {
        let start = Pipeline { queue, actuator: Actuator::Idle };
        if queue.len() > 0 {
            start.lemma_first_motion(6 * queue.len());
            Self::lemma_runs_in_order(queue.drop_first());
            assert(6 * queue.len() - 6 == 6 * queue.drop_first().len());
        }
    }
}

/// One thing that happens to the pipeline.
pub enum PipelineOp {
    /// The producer offers the command of a byte.
    Enqueue(u8),
    /// The consumer polls, attempts the action that is due and reports
    /// whether it succeeded.
    Step(bool),
}

impl Pipeline {
    /// The pipeline after `op`.
    pub open spec fn step(self, op: PipelineOp) -> Pipeline {
        match op {
            PipelineOp::Enqueue(byte) => self.enqueue(byte),
            PipelineOp::Step(success) => self.poll().complete(success),
        }
    }

    /// The outputs after `op`, which touches them only through the action
    /// that the consumer attempts.
    pub open spec fn step_outputs(self, outputs: Outputs, op: PipelineOp) -> Outputs {
        match op {
            PipelineOp::Enqueue(_) => outputs,
            PipelineOp::Step(success) => match self.poll().actuator.due() {
                Some(action) => outputs.apply(action, success),
                None => outputs,
            },
        }
    }

    /// The pipeline after `ops`, in any mixture of the producer's and the
    /// consumer's.
    pub open spec fn run(self, ops: Seq<PipelineOp>) -> Pipeline
        decreases ops.len(),
    {
        if ops.len() == 0 {
            self
        } else {
            self.run(ops.drop_last()).step(ops.last())
        }
    }

    /// The outputs after `ops`, from `outputs` at the start.
    pub open spec fn drive(self, outputs: Outputs, ops: Seq<PipelineOp>) -> Outputs
        decreases ops.len(),
    {
        if ops.len() == 0 {
            outputs
        } else {
            self.run(ops.drop_last()).step_outputs(
                self.drive(outputs, ops.drop_last()),
                ops.last(),
            )
        }
    }

    /// Whatever commands arrive, whenever they arrive, and whatever is
    /// reported of each action: the two direction outputs are never asserted
    /// together, nothing is asserted while the actuator rests, and when the
    /// output of a command is about to be asserted, those of all earlier
    /// commands were released.
    pub proof fn lemma_never_both_directions(self, ops: Seq<PipelineOp>)
        requires
            self.actuator.wf(),
        ensures
            self.run(ops).actuator.wf(),
            self.drive(self.actuator.outputs(), ops) == self.run(ops).actuator.outputs(),
            !(self.drive(self.actuator.outputs(), ops).up && self.drive(
                self.actuator.outputs(),
                ops,
            ).down),
            self.run(ops).actuator is Idle ==> self.drive(self.actuator.outputs(), ops).at_rest(),
            (self.run(ops).poll().actuator.due() == Some(Action::AssertUp) || self.run(
                ops,
            ).poll().actuator.due() == Some(Action::AssertDown)) ==> self.drive(
                self.actuator.outputs(),
                ops,
            ).at_rest(),
        decreases ops.len(),
    {
        if ops.len() > 0 {
            let before = self.run(ops.drop_last());
            self.lemma_never_both_directions(ops.drop_last());
            match ops.last() {
                PipelineOp::Enqueue(_) => {},
                PipelineOp::Step(success) => {
                    let polled = before.poll();
                    assert(polled.actuator.wf());
                    assert(polled.actuator.outputs() == before.actuator.outputs());
                    polled.actuator.lemma_wf_kept(success);
                    if polled.actuator is Actuating {
                        polled.actuator.lemma_outputs_follow(success);
                    }
                },
            }
        }
        self.run(ops).actuator.lemma_outputs_exclusive();
    }
}

/// The pending commands and the actuator that carries them out.
pub struct Dispatcher {
    /// The bytes of the commands that wait.
    pending: RingBuf,
    /// The actuator.
    actuator: Actuator,
}

impl View for Dispatcher {
    type V = Pipeline;

    closed spec fn view(&self) -> Pipeline {
        Pipeline { queue: self.pending@, actuator: self.actuator }
    }
}

impl DispatchError {
    /// The status code of the error.
    pub fn errno(&self) -> (code: u8)
        ensures
            code == ERRNO_QUEUE_FULL,
    {
        ERRNO_QUEUE_FULL
    }
}

impl Dispatcher {
    /// A dispatcher with nothing to do.
    pub fn new() -> (dispatcher: Dispatcher)
        ensures
            dispatcher@.queue == Seq::<u8>::empty(),
            dispatcher@.actuator == Actuator::Idle,
            dispatcher@.settled(),
    {
        Dispatcher { pending: RingBuf::new(), actuator: Actuator::new() }
    }

    /// Queues the command that `byte` stands for behind those that wait. With
    /// a full queue the command is dropped and the queue stays as it is.
    pub fn enqueue(&mut self, byte: u8) -> (result: Result<(), DispatchError>)
        ensures
            final(self)@ == old(self)@.enqueue(byte),
            final(self)@.queue.len() <= CAPACITY,
            old(self)@.has_room() ==> result == Ok::<(), DispatchError>(()),
            !old(self)@.has_room() ==> result == Err::<(), DispatchError>(
                DispatchError::QueueFull,
            ),
    {
        match self.pending.push(byte) {
            Ok(_) => Ok(()),
            Err(_) => Err(DispatchError::QueueFull),
        }
    }

    /// Queues the commands of `bytes` in order, as far as there is room, and
    /// returns how many were queued. They are the first ones: once the queue
    /// is full each further command is dropped.
    pub fn receive(&mut self, bytes: &[u8]) -> (accepted: usize)
        ensures
            accepted <= bytes@.len(),
            old(self)@.queue.len() <= CAPACITY,
            accepted == if bytes@.len() <= CAPACITY - old(self)@.queue.len() {
                bytes@.len() as int
            } else {
                CAPACITY - old(self)@.queue.len()
            },
            final(self)@.queue == old(self)@.queue + bytes@.take(accepted as int),
            final(self)@.actuator == old(self)@.actuator,
    {
        if self.pending.full() {
            assert(self@.queue + bytes@.take(0) =~= self@.queue);
            return 0;
        }
        let mut accepted: usize = 0;
        let mut i: usize = 0;
        assert(self@.queue + bytes@.take(0) =~= self@.queue);
        while i < bytes.len()
            invariant
                i <= bytes@.len(),
                accepted <= i,
                old(self)@.queue.len() <= CAPACITY,
                self@.queue.len() <= CAPACITY,
                accepted == if i <= CAPACITY - old(self)@.queue.len() {
                    i as int
                } else {
                    CAPACITY - old(self)@.queue.len()
                },
                self@.queue == old(self)@.queue + bytes@.take(accepted as int),
                self@.actuator == old(self)@.actuator,
            decreases bytes@.len() - i,
        {
            let ghost before = self@.queue;
            match self.enqueue(bytes[i]) {
                Ok(_) => {
                    assert(before.push(bytes@[i as int]) =~= old(self)@.queue + bytes@.take(
                        accepted + 1,
                    ));
                    accepted = accepted + 1;
                },
                Err(_) => {},
            }
            i = i + 1;
        }
        accepted
    }

    /// The action for the consumer to perform next, or nothing when there is
    /// nothing to do. While the actuator rests, the oldest command that waits
    /// is taken from the queue and its motion begins.
    pub fn poll(&mut self) -> (action: Option<Action>)
        ensures
            final(self)@ == old(self)@.poll(),
            action == final(self)@.actuator.due(),
            action is None <==> old(self)@.settled(),
    {
        if self.actuator.is_idle() {
            match self.pending.pop() {
                Some(byte) => {
                    let command = Command::from_u8(byte);
                    self.actuator.begin(command);
                },
                None => {},
            }
        }
        self.actuator.action()
    }

    /// Takes note that the action of the last `poll` was performed, with or
    /// without success. Returns how the motion ended, if it ended: well, or
    /// with the first output that could not be driven. The next command
    /// starts only after the motion has ended.
    pub fn complete(&mut self, success: bool) -> (outcome: Option<Result<(), Fault>>)
        ensures
            final(self)@ == old(self)@.complete(success),
            outcome == old(self)@.actuator.outcome(success),
    {
        self.actuator.complete(success)
    }
}

} // verus!
