use vstd::prelude::*;
use crate::activity::{flipped, ActivityEvent, ActivityStep, CyclicActivity, TOGGLE_INTERVAL_MS};
use crate::cancel_signal::CancelSignal;
use crate::control_loop::{ControlError, ControlLoop, Edge, LoopCommand, LoopPhase};
use crate::resource_cell::ResourceCell;
use crate::Level;

verus! {

/// Latest time, in milliseconds, that the controller accepts; it leaves room
/// for one more toggle interval.
pub const TIME_LIMIT_MS: u64 = 18446744073709551115;

/// The scheduler's one slot for the activity task.
pub enum TaskState<D> {
    /// No activity is alive.
    Absent,
    /// An activity was spawned and has not run yet.
    Spawned,
    /// An activity runs and holds the device.
    Running(CyclicActivity<D>),
}

/// The activity slot without the device.
#[derive(Clone, Copy, Debug, PartialEq, Eq, Structural)]
pub enum TaskView {
    Absent,
    Spawned,
    /// Level last driven, and when the next toggle is due.
    Running(Level, u64),
}

/// The whole core on one cooperative executor: the control loop, the stop
/// request, the cell that owns the device at rest, and the scheduler's single
/// slot for the activity, with a clock in milliseconds.
///
/// Edges and the executor running the activity task arrive as events, in
/// time order, each no later than the moment the activity is due to wake.
pub struct Controller<D> {
    cell: ResourceCell<D>,
    stop: CancelSignal,
    control: ControlLoop,
    task: TaskState<D>,
    clock: u64,
    home: Ghost<D>,
}

impl<D> Controller<D> {
    /// What the cell holds.
    pub closed spec fn cell_view(&self) -> Option<D> {
        self.cell@
    }

    /// Whether a stop request is pending.
    pub closed spec fn pending(&self) -> bool {
        self.stop@
    }

    /// The control loop's phase.
    pub closed spec fn phase(&self) -> LoopPhase {
        self.control.phase()
    }

    /// Time of the last event.
    pub closed spec fn clock(&self) -> u64 {
        self.clock
    }

    /// The device the controller was built with.
    pub closed spec fn home(&self) -> D {
        self.home@
    }

    /// The activity slot.
    pub closed spec fn task_view(&self) -> TaskView {
        match self.task {
            TaskState::Absent => TaskView::Absent,
            TaskState::Spawned => TaskView::Spawned,
            TaskState::Running(a) => TaskView::Running(a.level(), a.deadline()),
        }
    }

    /// The device held by a running activity, if one runs.
    pub closed spec fn held(&self) -> Option<D> {
        match self.task {
            TaskState::Running(a) => Some(a.device()),
            _ => None,
        }
    }

    /// Number of activities holding the device.
    pub open spec fn activity_holders(&self) -> nat {
        if self.held() is Some { 1 } else { 0 }
    }

    /// Number of places the device is in: the cell and the activities.
    pub open spec fn holders(&self) -> nat {
        self.activity_holders() + if self.cell_view() is Some { 1nat } else { 0nat }
    }

    /// Latest time at which the executor must run the activity task next.
    pub open spec fn wake_by(&self) -> u64 {
        match self.task_view() {
            TaskView::Absent => TIME_LIMIT_MS,
            TaskView::Spawned => self.clock(),
            TaskView::Running(_, deadline) => deadline,
        }
    }

    /// The device is in exactly one place and it is the original one; a
    /// running activity is not finished and is due within one interval.
    pub open spec fn wf(&self) -> bool {
        &&& self.holders() == 1
        &&& self.cell_view() is Some ==> self.cell_view() == Some(self.home())
        &&& self.held() is Some ==> self.held() == Some(self.home())
        &&& self.clock() <= TIME_LIMIT_MS
        &&& (self.task_view() is Running) == (self.held() is Some)
        &&& self.task_view() matches TaskView::Running(_, deadline) ==> self.clock() <= deadline
            <= self.clock() + TOGGLE_INTERVAL_MS
        &&& self.inner_wf()
    }

    /// The running activity's own invariant holds and it is not finished.
    pub closed spec fn inner_wf(&self) -> bool {
        match self.task {
            TaskState::Running(a) => a.wf() && !a.is_finished(),
            _ => true,
        }
    }

    /// A controller at time zero with `device` in the cell, waiting for a
    /// rising edge.
    pub fn new(device: D) -> (r: Self)
        ensures
            r.wf(),
            r.home() == device,
            r.cell_view() == Some(device),
            !r.pending(),
            r.phase() == LoopPhase::AwaitRising,
            r.task_view() == TaskView::Absent,
            r.clock() == 0,
    {
        Controller {
            cell: ResourceCell::new(device),
            stop: CancelSignal::new(),
            control: ControlLoop::new(),
            task: TaskState::Absent,
            clock: 0,
            home: Ghost(device),
        }
    }

    /// Whether the cell holds the device.
    pub fn device_at_rest(&self) -> (r: bool)
        ensures
            r == self.cell_view() is Some,
    {
        self.cell.is_occupied()
    }

    /// Whether a stop request is pending.
    pub fn stop_pending(&self) -> (r: bool)
        ensures
            r == self.pending(),
    {
        self.stop.is_pending()
    }

    /// The control loop's phase.
    pub fn loop_phase(&self) -> (r: LoopPhase)
        ensures
            r == self.phase(),
    {
        self.control.current_phase()
    }

    /// The activity slot.
    pub fn task(&self) -> (r: TaskView)
        ensures
            r == self.task_view(),
    {
        match &self.task {
            TaskState::Absent => TaskView::Absent,
            TaskState::Spawned => TaskView::Spawned,
            TaskState::Running(a) => TaskView::Running(a.current_level(), a.next_deadline()),
        }
    }

    /// An edge observed at `now`. A rising edge awaited by the loop spawns an
    /// activity, refused while one is still alive; a falling edge awaited by
    /// the loop raises the stop request; any other edge changes nothing.
    pub fn edge(&mut self, edge: Edge, now: u64) -> (r: Result<(), ControlError>)
        requires
            old(self).wf(),
            old(self).clock() <= now,
            now <= old(self).wake_by(),
            now <= TIME_LIMIT_MS,
        ensures
            final(self).wf(),
            final(self).home() == old(self).home(),
            final(self).clock() == now,
            final(self).cell_view() == old(self).cell_view(),
            match (old(self).phase(), edge) {
                (LoopPhase::AwaitRising, Edge::Rising) => if old(self).task_view() == TaskView::Absent {
                    &&& r == Ok::<(), ControlError>(())
                    &&& final(self).task_view() == TaskView::Spawned
                    &&& final(self).phase() == LoopPhase::AwaitFalling
                    &&& final(self).pending() == old(self).pending()
                } else {
                    &&& r == Err::<(), ControlError>(ControlError::SpawnRefused)
                    &&& final(self).task_view() == old(self).task_view()
                    &&& final(self).phase() == old(self).phase()
                    &&& final(self).pending() == old(self).pending()
                },
                (LoopPhase::AwaitFalling, Edge::Falling) => {
                    &&& r == Ok::<(), ControlError>(())
                    &&& final(self).task_view() == old(self).task_view()
                    &&& final(self).phase() == LoopPhase::AwaitRising
                    &&& final(self).pending()
                },
                _ => {
                    &&& r == Ok::<(), ControlError>(())
                    &&& final(self).task_view() == old(self).task_view()
                    &&& final(self).phase() == old(self).phase()
                    &&& final(self).pending() == old(self).pending()
                },
            },
    {
        self.clock = now;
        if self.control.current_phase() == LoopPhase::AwaitRising && edge == Edge::Rising {
            if !matches!(self.task, TaskState::Absent) {
                return Err(ControlError::SpawnRefused);
            }
        }
        match self.control.on_edge(edge) {
            Some(LoopCommand::Spawn) => {
                self.task = TaskState::Spawned;
            },
            Some(LoopCommand::RaiseCancel) => {
                self.stop.raise();
            },
            None => {},
        }
        Ok(())
    }

    /// The executor runs the activity task at `now`. A spawned activity first
    /// takes the device. A pending stop request is consumed and ends the
    /// activity: the device is driven idle and returned to the cell. Otherwise
    /// a due deadline flips the level. The result is the level to drive onto
    /// the device, if any.
    pub fn poll(&mut self, now: u64) -> (r: Option<Level>)
        requires
            old(self).wf(),
            old(self).clock() <= now,
            now <= old(self).wake_by(),
            now <= TIME_LIMIT_MS,
        ensures
            final(self).wf(),
            final(self).home() == old(self).home(),
            final(self).clock() == now,
            final(self).phase() == old(self).phase(),
            match old(self).task_view() {
                TaskView::Absent => {
                    &&& r == None::<Level>
                    &&& final(self).task_view() == TaskView::Absent
                    &&& final(self).pending() == old(self).pending()
                    &&& final(self).cell_view() == old(self).cell_view()
                },
                TaskView::Spawned => if old(self).pending() {
                    &&& r == Some(Level::Idle)
                    &&& final(self).task_view() == TaskView::Absent
                    &&& !final(self).pending()
                    &&& final(self).cell_view() == Some(old(self).home())
                } else {
                    &&& r == Some(Level::Active)
                    &&& final(self).task_view() == TaskView::Running(
                        Level::Active,
                        (now + TOGGLE_INTERVAL_MS) as u64,
                    )
                    &&& !final(self).pending()
                    &&& final(self).cell_view() == None::<D>
                },
                TaskView::Running(level, deadline) => if old(self).pending() {
                    &&& r == Some(Level::Idle)
                    &&& final(self).task_view() == TaskView::Absent
                    &&& !final(self).pending()
                    &&& final(self).cell_view() == Some(old(self).home())
                } else if now == deadline {
                    &&& r == Some(flipped(level))
                    &&& final(self).task_view() == TaskView::Running(
                        flipped(level),
                        (deadline + TOGGLE_INTERVAL_MS) as u64,
                    )
                    &&& !final(self).pending()
                    &&& final(self).cell_view() == old(self).cell_view()
                } else {
                    &&& r == None::<Level>
                    &&& final(self).task_view() == old(self).task_view()
                    &&& !final(self).pending()
                    &&& final(self).cell_view() == old(self).cell_view()
                },
            },
    {
        self.clock = now;
        let mut task = TaskState::Absent;
        std::mem::swap(&mut self.task, &mut task);
        match task {
            TaskState::Absent => None,
            TaskState::Spawned => {
                match CyclicActivity::start(&mut self.cell, now) {
                    Ok(a) => self.advance(a, now),
                    Err(_) => {
                        proof {
                            assert(false);
                        }
                        None
                    },
                }
            },
            TaskState::Running(a) => self.advance(a, now),
        }
    }

    /// Runs a taken-out activity once: cancel on a pending stop request,
    /// toggle on a due deadline, else put it back untouched.
    fn advance(&mut self, a: CyclicActivity<D>, now: u64) -> (r: Option<Level>)
        requires
            old(self).task_view() == TaskView::Absent,
            old(self).cell_view() == None::<D>,
            a.wf(),
            !a.is_finished(),
            a.device() == old(self).home(),
            now <= a.deadline() <= now + TOGGLE_INTERVAL_MS,
            now <= TIME_LIMIT_MS,
            old(self).clock() == now,
        ensures
            final(self).wf(),
            final(self).home() == old(self).home(),
            final(self).clock() == now,
            final(self).phase() == old(self).phase(),
            !final(self).pending(),
            if old(self).pending() {
                &&& r == Some(Level::Idle)
                &&& final(self).task_view() == TaskView::Absent
                &&& final(self).cell_view() == Some(old(self).home())
            } else if now == a.deadline() {
                &&& r == Some(flipped(a.level()))
                &&& final(self).task_view() == TaskView::Running(
                    flipped(a.level()),
                    (a.deadline() + TOGGLE_INTERVAL_MS) as u64,
                )
                &&& final(self).cell_view() == None::<D>
            } else {
                &&& r == None::<Level>
                &&& final(self).task_view() == TaskView::Running(a.level(), a.deadline())
                &&& final(self).cell_view() == None::<D>
            },
    {
        let mut a = a;
        if self.stop.try_take() {
            a.on_event(ActivityEvent::Cancelled);
            let level = a.release(&mut self.cell);
            Some(level)
        } else if now == a.next_deadline() {
            let step = a.on_event(ActivityEvent::Elapsed);
            self.task = TaskState::Running(a);
            match step {
                ActivityStep::Drive(level) => Some(level),
                ActivityStep::Finish => None,
            }
        } else {
            self.task = TaskState::Running(a);
            None
        }
    }
}

/// At every moment the device is in exactly one place, the cell or one
/// activity, so no two units of work hold it at once; and it is always the
/// device the controller started with.
pub proof fn lemma_exclusive_holder<D>(c: Controller<D>)
    requires
        c.wf(),
    ensures
        c.activity_holders() <= 1,
        c.holders() == 1,
        (c.cell_view() is Some) != (c.held() is Some),
        c.held() is Some ==> c.held() == Some(c.home()),
{
}

/// Once no activity is alive, after any number of press and release cycles,
/// the cell holds the very device it started with.
pub proof fn lemma_round_trip<D>(c: Controller<D>)
    requires
        c.wf(),
        c.task_view() == TaskView::Absent,
    ensures
        c.cell_view() == Some(c.home()),
{
}

/// When a stop request is raised while an activity runs, the executor runs
/// the activity again within one toggle interval, and by `poll` that run
/// consumes the request, drives the device idle and returns it to the cell.
pub proof fn lemma_cancel_latency<D>(c: Controller<D>)
    requires
        c.wf(),
        c.pending(),
        c.task_view() is Running,
    ensures
        c.clock() <= c.wake_by() <= c.clock() + TOGGLE_INTERVAL_MS,
{
}

} // verus!
