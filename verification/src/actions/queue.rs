//! The action queue of one agent: an ordered list of actions, of which at
//! most one runs.

use vstd::prelude::*;
use crate::actions::move_action::{step_length, MoveBundle};
use crate::actions::{Action, ActionError, StopReason};
use crate::math::Vec3;
use crate::movement::spec_move_towards;
use crate::interpolation::RotationBlend;
use crate::tick::PhysicsTick;
use crate::world::{Transform, World};

verus! {

/// How often a queue runs through its actions again.
#[derive(Clone, Copy, Debug, PartialEq, Eq, Structural)]
pub enum Repeat {
    /// Not at all.
    Never,
    /// This many more times.
    Count(u32),
    /// Without end.
    Forever,
}

impl Repeat {
    /// Whether another pass is permitted.
    pub open spec fn permits(self) -> bool {
        match self {
            Repeat::Never => false,
            Repeat::Count(left) => left > 0,
            Repeat::Forever => true,
        }
    }

    /// What is left once another pass has begun.
    pub open spec fn after_pass(self) -> Repeat {
        match self {
            Repeat::Count(left) if left > 0 => Repeat::Count((left - 1) as u32),
            _ => self,
        }
    }

    /// Takes one pass, if another is permitted, and says whether it was.
    pub fn process(&mut self) -> (r: bool)
        ensures
            r == old(self).permits(),
            *final(self) == (if r {
                old(self).after_pass()
            } else {
                *old(self)
            }),
    {
        match *self {
            Repeat::Never => false,
            Repeat::Count(left) => {
                if left == 0 {
                    return false;
                }
                *self = Repeat::Count(left - 1);
                true
            },
            Repeat::Forever => true,
        }
    }
}

/// How an action is added to a queue.
#[derive(Clone, Copy, Debug, PartialEq, Eq, Structural)]
pub struct AddConfig {
    /// How often the queue repeats from now on.
    pub repeat: Repeat,
}

impl Default for AddConfig {
    fn default() -> (r: Self)
        ensures
            r == (AddConfig { repeat: Repeat::Never }),
    {
        AddConfig { repeat: Repeat::Never }
    }
}

/// What a queue is doing.
#[derive(Clone, Copy, Debug, PartialEq, Eq, Structural)]
pub enum QueueState {
    /// The queue is empty.
    Idle,
    /// The current action runs.
    Running,
    /// The current action is paused.
    Paused,
}

/// The mathematical state of a queue.
pub struct QueueModel {
    /// The agent that the actions act for.
    pub agent: u64,
    /// The actions, in order.
    pub actions: Seq<Action>,
    /// The place of the current action.
    pub current_index: int,
    /// How often the queue repeats.
    pub repeat: Repeat,
    /// What the queue is doing.
    pub state: QueueState,
}

impl QueueModel {
    /// An idle queue is empty; any other has a current action.
    pub open spec fn wf(self) -> bool {
        match self.state {
            QueueState::Idle => self.actions.len() == 0 && self.current_index == 0,
            _ => 0 <= self.current_index < self.actions.len(),
        }
    }

    /// The empty queue of the same agent.
    pub open spec fn emptied(self) -> QueueModel {
        QueueModel {
            agent: self.agent,
            actions: Seq::empty(),
            current_index: 0,
            repeat: self.repeat,
            state: QueueState::Idle,
        }
    }

    /// The queue with the action at `index` started and running.
    pub open spec fn started_at(self, index: int, world: Map<u64, Transform>) -> QueueModel {
        QueueModel {
            agent: self.agent,
            actions: self.actions.update(index, self.actions[index].spec_on_start(self.agent, world)),
            current_index: index,
            repeat: self.repeat,
            state: QueueState::Running,
        }
    }

    /// The queue with its current action stopped.
    pub open spec fn stopped(self, reason: StopReason) -> QueueModel {
        QueueModel {
            agent: self.agent,
            actions: self.actions.update(
                self.current_index,
                self.actions[self.current_index].spec_on_stop(reason),
            ),
            current_index: self.current_index,
            repeat: self.repeat,
            state: self.state,
        }
    }

    /// The queue with `action` added at its end. An idle queue starts it.
    pub open spec fn enqueue(self, action: Action, config: AddConfig, world: Map<u64, Transform>)
        -> QueueModel {
        let added = QueueModel {
            agent: self.agent,
            actions: self.actions.push(action),
            current_index: self.current_index,
            repeat: config.repeat,
            state: self.state,
        };
        if self.state == QueueState::Idle {
            added.started_at(0, world)
        } else {
            added
        }
    }

    /// The queue once its running action has completed: the next action
    /// runs; past the end the queue starts over where another pass is
    /// permitted, and is emptied where none is. A queue that does not run
    /// stays as it is.
    pub open spec fn advance(self, world: Map<u64, Transform>) -> QueueModel {
        if self.state != QueueState::Running {
            self
        } else if self.current_index + 1 < self.actions.len() {
            self.stopped(StopReason::Completed).started_at(self.current_index + 1, world)
        } else if self.repeat.permits() {
            (QueueModel {
                repeat: self.repeat.after_pass(),
                ..self.stopped(StopReason::Completed)
            }).started_at(0, world)
        } else {
            self.emptied()
        }
    }

    /// The queue with its running action paused.
    pub open spec fn pause(self) -> QueueModel {
        if self.state == QueueState::Running {
            QueueModel { state: QueueState::Paused, ..self.stopped(StopReason::Paused) }
        } else {
            self
        }
    }

    /// The queue with its paused action running again.
    pub open spec fn resume(self, world: Map<u64, Transform>) -> QueueModel {
        if self.state == QueueState::Paused {
            self.started_at(self.current_index, world)
        } else {
            self
        }
    }

    /// The action that a cancel stops, as it is left.
    pub open spec fn canceled_action(self) -> Option<Action> {
        if self.state == QueueState::Running {
            Some(self.actions[self.current_index].spec_on_stop(StopReason::Canceled))
        } else {
            None
        }
    }

    /// The queue after a tick of `dt` nanoseconds: its running action has
    /// run, and where that action judged itself complete the queue has
    /// advanced.
    pub open spec fn tick(self, world: Map<u64, Transform>, dt: u64) -> QueueModel {
        if self.state != QueueState::Running {
            self
        } else {
            let action = self.actions[self.current_index];
            let ticked = QueueModel {
                actions: self.actions.update(self.current_index, action.spec_tick(world, dt)),
                ..self
            };
            if action.spec_tick_result(self.agent, world, dt) == Ok::<bool, ActionError>(true) {
                ticked.advance(action.spec_tick_world(self.agent, world, dt))
            } else {
                ticked
            }
        }
    }

    /// The world after a tick of `dt` nanoseconds of the queue.
    pub open spec fn tick_world(self, world: Map<u64, Transform>, dt: u64) -> Map<u64, Transform> {
        if self.state != QueueState::Running {
            world
        } else {
            self.actions[self.current_index].spec_tick_world(self.agent, world, dt)
        }
    }

    /// What a tick of `dt` nanoseconds gives: whether the queue advanced,
    /// or why its running action could not run.
    pub open spec fn tick_result(self, world: Map<u64, Transform>, dt: u64) -> Result<
        bool,
        ActionError,
    > {
        if self.state != QueueState::Running {
            Ok(false)
        } else {
            self.actions[self.current_index].spec_tick_result(self.agent, world, dt)
        }
    }

    /// The blend of rotations that a tick of `dt` nanoseconds leaves to the caller.
    pub open spec fn tick_rotation(self, world: Map<u64, Transform>, dt: u64) -> Option<
        RotationBlend,
    > {
        if self.state != QueueState::Running {
            None
        } else {
            self.actions[self.current_index].spec_tick_rotation(world, dt)
        }
    }
}

impl QueueModel {
    /// Whether the action at `index` is active: started, and not stopped since.
    pub open spec fn is_active(self, index: int) -> bool {
        self.state == QueueState::Running && index == self.current_index
    }

    /// At most one action of a queue is active, and it is one of its actions.
    pub proof fn lemma_at_most_one_active(self, first: int, second: int)
        requires
            self.wf(),
            self.is_active(first),
            self.is_active(second),
        ensures
            first == second,
            0 <= first < self.actions.len(),
    {
    }

    /// The queue after its running action has completed `count` times in a row.
    pub open spec fn advance_times(self, count: nat, world: Map<u64, Transform>) -> QueueModel
        decreases count,
    {
        if count == 0 {
            self
        } else {
            self.advance(world).advance_times((count - 1) as nat, world)
        }
    }

    /// Every step of a queue keeps it well formed, and none but `enqueue`
    /// and the emptying of the queue changes the number of its actions.
    pub proof fn lemma_steps_keep_wf(
        self,
        action: Action,
        config: AddConfig,
        world: Map<u64, Transform>,
        dt: u64,
    )
        requires
            self.wf(),
        ensures
            self.enqueue(action, config, world).wf(),
            self.enqueue(action, config, world).actions.len() == self.actions.len() + 1,
            self.advance(world).wf(),
            self.pause().wf(),
            self.pause().actions.len() == self.actions.len(),
            self.resume(world).wf(),
            self.resume(world).actions.len() == self.actions.len(),
            self.emptied().wf(),
            self.tick(world, dt).wf(),
    {
    }

    /// A running queue that repeats without end goes on to the next action
    /// when one completes, and from the last to the first.
    pub proof fn lemma_forever_goes_round(self, world: Map<u64, Transform>)
        requires
            self.wf(),
            self.state == QueueState::Running,
            self.repeat == Repeat::Forever,
        ensures
            self.advance(world).wf(),
            self.advance(world).state == QueueState::Running,
            self.advance(world).repeat == Repeat::Forever,
            self.advance(world).actions.len() == self.actions.len(),
            self.advance(world).current_index == (if self.current_index + 1 < self.actions.len() {
                self.current_index + 1
            } else {
                0
            }),
    {
    }

    /// A running queue that repeats without end is at its current action
    /// again once as many actions have completed as it holds.
    pub proof fn lemma_forever_cycles(self, world: Map<u64, Transform>)
        requires
            self.wf(),
            self.state == QueueState::Running,
            self.repeat == Repeat::Forever,
        ensures
            self.advance_times(self.actions.len(), world).state == QueueState::Running,
            self.advance_times(self.actions.len(), world).current_index == self.current_index,
            self.advance_times(self.actions.len(), world).actions.len() == self.actions.len(),
    {
        self.lemma_forever_steps(self.actions.len(), world);
        let len = self.actions.len() as int;
        let index = self.current_index;
        assert((index + len) % len == index) by (nonlinear_arith)
            requires
                0 <= index < len,
        ;
    }

    /// A running queue that repeats without end is `count` places further
    /// round once `count` actions have completed.
    pub proof fn lemma_forever_steps(self, count: nat, world: Map<u64, Transform>)
        requires
            self.wf(),
            self.state == QueueState::Running,
            self.repeat == Repeat::Forever,
        ensures
            self.advance_times(count, world).wf(),
            self.advance_times(count, world).state == QueueState::Running,
            self.advance_times(count, world).repeat == Repeat::Forever,
            self.advance_times(count, world).actions.len() == self.actions.len(),
            self.advance_times(count, world).current_index == (self.current_index + count) % (
            self.actions.len() as int),
        decreases count,
    {
        let len = self.actions.len() as int;
        let index = self.current_index;
        if count == 0 {
            assert(index % len == index) by (nonlinear_arith)
                requires
                    0 <= index < len,
            ;
        } else {
            let next = self.advance(world);
            self.lemma_forever_goes_round(world);
            next.lemma_forever_steps((count - 1) as nat, world);
            if index + 1 < len {
                assert((index + 1 + (count - 1)) % len == (index + count) % len);
            } else {
                assert((0 + (count - 1)) % len == (index + count) % len) by (nonlinear_arith)
                    requires
                        index + 1 == len,
                        len > 0,
                        count >= 1,
                ;
            }
        }
    }
}

impl QueueModel {
    /// The move that the queue runs: the target and speed of its current
    /// action, where the queue runs and that action is a move that runs.
    pub open spec fn running_move(self) -> Option<MoveBundle> {
        if self.state == QueueState::Running {
            match self.actions[self.current_index] {
                Action::Move(moving) => moving.bundle,
                _ => None,
            }
        } else {
            None
        }
    }

    /// The point that the agent of a running move reaches in a tick of
    /// `dt` nanoseconds.
    pub open spec fn move_reaches(self, world: Map<u64, Transform>, dt: u64) -> Option<Vec3> {
        match self.running_move() {
            Some(bundle) if world.contains_key(self.agent) => spec_move_towards(
                world[self.agent].translation,
                bundle.target,
                step_length(bundle.speed, dt),
            ),
            _ => None,
        }
    }

    /// A queue that runs a move advances on the tick on which the agent
    /// reaches the target of the move, exactly, and on no tick before: until
    /// then the tick moves the agent and leaves the queue as it is. So a
    /// queue that repeats without end and runs a move as its last action
    /// is at its first action again after the tick of arrival, and not
    /// before.
    pub proof fn lemma_move_advances_on_arrival(
        self,
        world: Map<u64, Transform>,
        dt: u64,
        bundle: MoveBundle,
        reached: Vec3,
    )
        requires
            self.wf(),
            self.running_move() == Some(bundle),
            self.move_reaches(world, dt) == Some(reached),
        ensures
            self.tick_world(world, dt).contains_key(self.agent),
            self.tick_world(world, dt)[self.agent].translation == reached,
            self.tick_result(world, dt).is_ok(),
            self.tick_result(world, dt) matches Ok(advanced) ==> advanced == (reached
                == bundle.target),
            reached != bundle.target ==> self.tick(world, dt) == self,
            reached == bundle.target ==> self.tick(world, dt) == self.advance(
                self.tick_world(world, dt),
            ),
            reached == bundle.target && self.repeat == Repeat::Forever && self.current_index + 1
                == self.actions.len() ==> {
                &&& self.tick(world, dt).state == QueueState::Running
                &&& self.tick(world, dt).current_index == 0
                &&& self.tick(world, dt).actions.len() == self.actions.len()
            },
    {
        let action = self.actions[self.current_index];
        let ticked = QueueModel {
            actions: self.actions.update(self.current_index, action.spec_tick(world, dt)),
            ..self
        };
        assert(ticked.actions =~= self.actions);
        assert(ticked == self);
    }
}

/// The action queue of one agent.
pub struct ActionQueue {
    agent: u64,
    actions: Vec<Action>,
    current_index: usize,
    repeat: Repeat,
    state: QueueState,
}

impl View for ActionQueue {
    type V = QueueModel;

    closed spec fn view(&self) -> QueueModel {
        QueueModel {
            agent: self.agent,
            actions: self.actions@,
            current_index: self.current_index as int,
            repeat: self.repeat,
            state: self.state,
        }
    }
}

impl ActionQueue {
    /// Whether the queue is well formed: every queue that this module hands out is.
    pub open spec fn wf(&self) -> bool {
        self@.wf()
    }

    /// The empty queue of `agent`.
    pub fn new(agent: u64) -> (r: Self)
        ensures
            r.wf(),
            r@ == (QueueModel {
                agent,
                actions: Seq::empty(),
                current_index: 0,
                repeat: Repeat::Never,
                state: QueueState::Idle,
            }),
    {
        ActionQueue {
            agent,
            actions: Vec::new(),
            current_index: 0,
            repeat: Repeat::Never,
            state: QueueState::Idle,
        }
    }

    /// The agent that the actions act for.
    pub fn agent(&self) -> (r: u64)
        ensures
            r == self@.agent,
    {
        self.agent
    }

    /// What the queue is doing.
    pub fn state(&self) -> (r: QueueState)
        ensures
            r == self@.state,
    {
        self.state
    }

    /// The number of actions in the queue.
    pub fn len(&self) -> (r: usize)
        ensures
            r == self@.actions.len(),
    {
        self.actions.len()
    }

    /// The place of the current action; zero in an idle queue.
    pub fn current_index(&self) -> (r: usize)
        ensures
            r == self@.current_index,
    {
        self.current_index
    }

    /// How often the queue repeats.
    pub fn repeat(&self) -> (r: Repeat)
        ensures
            r == self@.repeat,
    {
        self.repeat
    }

    /// The current action, if the queue has one.
    pub fn current(&self) -> (r: Option<Action>)
        requires
            self.wf(),
        ensures
            r == (if self@.state == QueueState::Idle {
                None
            } else {
                Some(self@.actions[self@.current_index])
            }),
    {
        match self.state {
            QueueState::Idle => None,
            _ => Some(self.actions[self.current_index]),
        }
    }

    /// Starts the action at `index` and lets the queue run.
    fn start_at(&mut self, index: usize, world: &World)
        requires
            index < old(self)@.actions.len(),
        ensures
            final(self)@ == old(self)@.started_at(index as int, world@),
            final(self).wf(),
    {
        let mut action = self.actions[index];
        action.on_start(self.agent, world);
        self.actions.set(index, action);
        self.current_index = index;
        self.state = QueueState::Running;
    }

    /// Stops the current action.
    fn stop_current(&mut self, reason: StopReason)
        requires
            old(self).wf(),
            old(self)@.state != QueueState::Idle,
        ensures
            final(self)@ == old(self)@.stopped(reason),
            final(self).wf(),
    {
        let mut action = self.actions[self.current_index];
        action.on_stop(reason);
        self.actions.set(self.current_index, action);
    }

    /// Adds `action` at the end of the queue. An idle queue starts it at once.
    pub fn enqueue(&mut self, action: Action, config: AddConfig, world: &World)
        requires
            old(self).wf(),
        ensures
            final(self).wf(),
            final(self)@ == old(self)@.enqueue(action, config, world@),
    {
        self.actions.push(action);
        self.repeat = config.repeat;
        if let QueueState::Idle = self.state {
            self.start_at(0, world);
        }
    }

    /// Takes the running action as completed and goes on to the next.
    ///
    /// Nothing happens where no action runs.
    pub fn advance(&mut self, world: &World)
        requires
            old(self).wf(),
        ensures
            final(self).wf(),
            final(self)@ == old(self)@.advance(world@),
    {
        match self.state {
            QueueState::Running => {},
            _ => {
                return;
            },
        }
        assert(self.current_index < self.actions.len());
        if self.current_index + 1 < self.actions.len() {
            self.stop_current(StopReason::Completed);
            self.start_at(self.current_index + 1, world);
        } else if self.repeat.process() {
            self.stop_current(StopReason::Completed);
            self.start_at(0, world);
        } else {
            self.actions = Vec::new();
            self.current_index = 0;
            self.state = QueueState::Idle;
        }
    }

    /// Pauses the running action, which keeps its progress.
    ///
    /// Nothing happens where no action runs.
    pub fn pause(&mut self)
        requires
            old(self).wf(),
        ensures
            final(self).wf(),
            final(self)@ == old(self)@.pause(),
    {
        if let QueueState::Running = self.state {
            self.stop_current(StopReason::Paused);
            self.state = QueueState::Paused;
        }
    }

    /// Lets the paused action run again from where it was.
    ///
    /// Nothing happens where no action is paused.
    pub fn resume(&mut self, world: &World)
        requires
            old(self).wf(),
        ensures
            final(self).wf(),
            final(self)@ == old(self)@.resume(world@),
    {
        if let QueueState::Paused = self.state {
            self.start_at(self.current_index, world);
        }
    }

    /// Calls the queue off: the running action is stopped as canceled and
    /// handed back as it was left, and the queue is emptied.
    pub fn cancel(&mut self) -> (r: Option<Action>)
        requires
            old(self).wf(),
        ensures
            final(self).wf(),
            final(self)@ == old(self)@.emptied(),
            r == old(self)@.canceled_action(),
    {
        let mut canceled: Option<Action> = None;
        if let QueueState::Running = self.state {
            self.stop_current(StopReason::Canceled);
            canceled = Some(self.actions[self.current_index]);
        }
        self.actions = Vec::new();
        self.current_index = 0;
        self.state = QueueState::Idle;
        canceled
    }

    /// Runs the running action for one tick and advances the queue where
    /// that action judges itself complete.
    ///
    /// Gives whether the queue advanced, or why the action could not run,
    /// and the blend of rotations that is left to the caller.
    pub fn tick(&mut self, world: &mut World, tick: &PhysicsTick) -> (r: (
        Result<bool, ActionError>,
        Option<RotationBlend>,
    ))
        requires
            old(self).wf(),
        ensures
            final(self).wf(),
            final(self)@ == old(self)@.tick(old(world)@, tick@.delta as u64),
            final(world)@ == old(self)@.tick_world(old(world)@, tick@.delta as u64),
            r.0 == old(self)@.tick_result(old(world)@, tick@.delta as u64),
            r.1 == old(self)@.tick_rotation(old(world)@, tick@.delta as u64),
    {
        match self.state {
            QueueState::Running => {},
            _ => {
                return (Ok(false), None);
            },
        }
        let mut action = self.actions[self.current_index];
        let report = action.tick(self.agent, world, tick);
        self.actions.set(self.current_index, action);
        if let Ok(true) = report.0 {
            self.advance(world);
        }
        report
    }
}

} // verus!
