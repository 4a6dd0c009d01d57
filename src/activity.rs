use vstd::prelude::*;
use crate::resource_cell::{AcquireError, ResourceCell};
use crate::Level;

verus! {

/// Time the device stays at each level while the activity toggles it.
pub const TOGGLE_INTERVAL_MS: u64 = 500;

/// The other level.
pub open spec fn flipped(level: Level) -> Level {
    match level {
        Level::Idle => Level::Active,
        Level::Active => Level::Idle,
    }
}

/// What woke a running activity.
#[derive(Clone, Copy, Debug, PartialEq, Eq, Structural)]
pub enum ActivityEvent {
    /// The stop request was consumed.
    Cancelled,
    /// The activity's deadline was reached.
    Elapsed,
}

/// What the activity asks of its driver after an event.
#[derive(Clone, Copy, Debug, PartialEq, Eq, Structural)]
pub enum ActivityStep {
    /// Drive the device to this level, then sleep until the next deadline.
    Drive(Level),
    /// Drive the device idle and give it back: the activity is over.
    Finish,
}

/// The spawned toggling activity, holding the device for its whole life.
///
/// It starts with the device idle and its first deadline due at once; each
/// elapsed deadline flips the level and sets the next one an interval later.
/// A cancellation ends it with the level forced idle, after which it can
/// only hand the device back.
pub struct CyclicActivity<D> {
    device: D,
    level: Level,
    deadline: u64,
    finished: bool,
}

impl<D> CyclicActivity<D> {
    /// The device the activity holds.
    pub closed spec fn device(&self) -> D {
        self.device
    }

    /// The level last driven onto the device.
    pub closed spec fn level(&self) -> Level {
        self.level
    }

    /// When the next toggle is due, in milliseconds.
    pub closed spec fn deadline(&self) -> u64 {
        self.deadline
    }

    /// Whether the activity has been cancelled.
    pub closed spec fn is_finished(&self) -> bool {
        self.finished
    }

    /// A finished activity always leaves the device idle.
    pub open spec fn wf(&self) -> bool {
        self.is_finished() ==> self.level() == Level::Idle
    }

    /// Takes the device out of `cell` and starts the activity at `now`.
    pub fn start(cell: &mut ResourceCell<D>, now: u64) -> (r: Result<Self, AcquireError>)
        ensures
            final(cell)@ == None::<D>,
            match old(cell)@ {
                Some(d) => r matches Ok(a) && a.wf() && a.device() == d && a.level() == Level::Idle
                    && a.deadline() == now && !a.is_finished(),
                None => r == Err::<Self, AcquireError>(AcquireError::ResourceUnavailable),
            },
    {
        match cell.acquire() {
            Ok(device) => Ok(CyclicActivity { device, level: Level::Idle, deadline: now, finished: false }),
            Err(e) => Err(e),
        }
    }

    /// Level last driven onto the device.
    pub fn current_level(&self) -> (r: Level)
        ensures
            r == self.level(),
    {
        self.level
    }

    /// When the next toggle is due, in milliseconds.
    pub fn next_deadline(&self) -> (r: u64)
        ensures
            r == self.deadline(),
    {
        self.deadline
    }

    /// Whether the activity has been cancelled.
    pub fn finished(&self) -> (r: bool)
        ensures
            r == self.is_finished(),
    {
        self.finished
    }

    /// Access to the held device, to apply the level the activity asks for.
    pub fn device_mut(&mut self) -> (r: &mut D)
        ensures
            *r == old(self).device(),
            final(self).device() == *final(r),
            final(self).level() == old(self).level(),
            final(self).deadline() == old(self).deadline(),
            final(self).is_finished() == old(self).is_finished(),
    {
        &mut self.device
    }

    /// Reacts to one event. A cancellation finishes the activity with the
    /// device idle; an elapsed deadline flips the level and moves the
    /// deadline one interval on.
    pub fn on_event(&mut self, event: ActivityEvent) -> (r: ActivityStep)
        requires
            old(self).wf(),
            !old(self).is_finished(),
            event == ActivityEvent::Elapsed ==> old(self).deadline() <= u64::MAX - TOGGLE_INTERVAL_MS,
        ensures
            final(self).wf(),
            final(self).device() == old(self).device(),
            match event {
                ActivityEvent::Cancelled => r == ActivityStep::Finish && final(self).is_finished()
                    && final(self).level() == Level::Idle
                    && final(self).deadline() == old(self).deadline(),
                ActivityEvent::Elapsed => r == ActivityStep::Drive(flipped(old(self).level()))
                    && !final(self).is_finished()
                    && final(self).level() == flipped(old(self).level())
                    && final(self).deadline() == old(self).deadline() + TOGGLE_INTERVAL_MS,
            },
    {
        match event {
            ActivityEvent::Cancelled => {
                self.level = Level::Idle;
                self.finished = true;
                ActivityStep::Finish
            },
            ActivityEvent::Elapsed => {
                self.level = match self.level {
                    Level::Idle => Level::Active,
                    Level::Active => Level::Idle,
                };
                self.deadline = self.deadline + TOGGLE_INTERVAL_MS;
                ActivityStep::Drive(self.level)
            },
        }
    }

    /// Hands the device of a finished activity back to `cell`.
    pub fn release(self, cell: &mut ResourceCell<D>) -> (level: Level)
        requires
            self.wf(),
            self.is_finished(),
        ensures
            level == Level::Idle,
            final(cell)@ == Some(self.device()),
    {
        let level = self.level;
        cell.release(self.device);
        level
    }
}

/// Whichever way an activity ended, the level it last recorded, the one the
/// device holds when it goes back to the cell, is idle.
pub proof fn lemma_idle_on_exit<D>(a: CyclicActivity<D>)
    requires
        a.wf(),
        a.is_finished(),
    ensures
        a.level() == Level::Idle,
{
}

} // verus!
