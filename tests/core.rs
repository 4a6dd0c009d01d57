use button_blink::{
    AcquireError, ActivityEvent, ActivityStep, CancelSignal, ControlError, ControlLoop, Controller,
    CyclicActivity, Edge, Level, LoopCommand, LoopPhase, ResourceCell, TaskView,
    TOGGLE_INTERVAL_MS,
};

#[test]
fn cell_acquire_then_release() {
    let mut cell = ResourceCell::new(7u32);
    assert!(cell.is_occupied());
    assert_eq!(cell.acquire(), Ok(7));
    assert!(!cell.is_occupied());
    cell.release(7);
    assert!(cell.is_occupied());
    assert_eq!(cell.acquire(), Ok(7));
}

#[test]
fn cell_acquire_empty_is_unavailable() {
    let mut cell: ResourceCell<u32> = ResourceCell::empty();
    assert_eq!(cell.acquire(), Err(AcquireError::ResourceUnavailable));
    let mut cell = ResourceCell::new(3u32);
    assert_eq!(cell.acquire(), Ok(3));
    assert_eq!(cell.acquire(), Err(AcquireError::ResourceUnavailable));
}

#[test]
fn cell_release_overwrites() {
    let mut cell = ResourceCell::new(1u32);
    cell.release(2);
    assert_eq!(cell.acquire(), Ok(2));
}

#[test]
fn signal_two_raises_leave_one() {
    let mut s = CancelSignal::new();
    assert!(!s.is_pending());
    s.raise();
    s.raise();
    assert!(s.is_pending());
    assert!(s.try_take());
    assert!(!s.is_pending());
    assert!(!s.try_take());
}

#[test]
fn activity_toggles_and_finishes_idle() {
    let mut cell = ResourceCell::new(5u32);
    let mut a = CyclicActivity::start(&mut cell, 100).unwrap();
    assert!(!cell.is_occupied());
    assert_eq!(a.current_level(), Level::Idle);
    assert_eq!(a.next_deadline(), 100);
    assert_eq!(a.on_event(ActivityEvent::Elapsed), ActivityStep::Drive(Level::Active));
    assert_eq!(a.next_deadline(), 100 + TOGGLE_INTERVAL_MS);
    assert_eq!(a.on_event(ActivityEvent::Elapsed), ActivityStep::Drive(Level::Idle));
    assert_eq!(a.on_event(ActivityEvent::Elapsed), ActivityStep::Drive(Level::Active));
    assert_eq!(a.next_deadline(), 1600);
    *a.device_mut() = 6;
    assert_eq!(a.on_event(ActivityEvent::Cancelled), ActivityStep::Finish);
    assert!(a.finished());
    assert_eq!(a.current_level(), Level::Idle);
    assert_eq!(a.release(&mut cell), Level::Idle);
    assert_eq!(cell.acquire(), Ok(6));
}

#[test]
fn activity_start_on_empty_cell_fails() {
    let mut cell: ResourceCell<u32> = ResourceCell::empty();
    assert!(matches!(
        CyclicActivity::start(&mut cell, 0),
        Err(AcquireError::ResourceUnavailable)
    ));
}

#[test]
fn control_loop_pairs_edges() {
    let mut l = ControlLoop::new();
    assert_eq!(l.current_phase(), LoopPhase::AwaitRising);
    assert_eq!(l.on_edge(Edge::Falling), None);
    assert_eq!(l.on_edge(Edge::Rising), Some(LoopCommand::Spawn));
    assert_eq!(l.current_phase(), LoopPhase::AwaitFalling);
    assert_eq!(l.on_edge(Edge::Rising), None);
    assert_eq!(l.on_edge(Edge::Falling), Some(LoopCommand::RaiseCancel));
    assert_eq!(l.current_phase(), LoopPhase::AwaitRising);
}

#[test]
fn scenario_press_at_zero_release_at_1200() {
    let mut c = Controller::new(42u32);
    assert_eq!(c.edge(Edge::Rising, 0), Ok(()));
    assert_eq!(c.task(), TaskView::Spawned);
    assert_eq!(c.poll(0), Some(Level::Active));
    assert!(!c.device_at_rest());
    assert_eq!(c.poll(500), Some(Level::Idle));
    assert_eq!(c.poll(1000), Some(Level::Active));
    assert_eq!(c.edge(Edge::Falling, 1200), Ok(()));
    assert!(c.stop_pending());
    match c.task() {
        TaskView::Running(level, deadline) => {
            assert_eq!(level, Level::Active);
            assert!(deadline <= 1700);
        }
        other => panic!("unexpected task state {:?}", other),
    }
    assert_eq!(c.poll(1200), Some(Level::Idle));
    assert!(c.device_at_rest());
    assert_eq!(c.task(), TaskView::Absent);
    assert!(!c.stop_pending());
}

#[test]
fn cancel_latency_at_deadline() {
    let mut c = Controller::new(1u32);
    c.edge(Edge::Rising, 0).unwrap();
    assert_eq!(c.poll(0), Some(Level::Active));
    c.edge(Edge::Falling, 10).unwrap();
    assert_eq!(c.poll(200), Some(Level::Idle));
    assert!(c.device_at_rest());
}

#[test]
fn poll_before_deadline_changes_nothing() {
    let mut c = Controller::new(1u32);
    c.edge(Edge::Rising, 0).unwrap();
    assert_eq!(c.poll(0), Some(Level::Active));
    assert_eq!(c.poll(300), None);
    assert_eq!(c.task(), TaskView::Running(Level::Active, 500));
    assert_eq!(c.poll(500), Some(Level::Idle));
    assert_eq!(c.task(), TaskView::Running(Level::Idle, 1000));
}

#[test]
fn round_trip_many_cycles() {
    let mut c = Controller::new(99u32);
    let mut t: u64 = 0;
    for _ in 0..10 {
        assert_eq!(c.edge(Edge::Rising, t), Ok(()));
        assert_eq!(c.poll(t), Some(Level::Active));
        assert_eq!(c.poll(t + 500), Some(Level::Idle));
        assert_eq!(c.edge(Edge::Falling, t + 700), Ok(()));
        assert_eq!(c.poll(t + 700), Some(Level::Idle));
        assert!(c.device_at_rest());
        assert_eq!(c.task(), TaskView::Absent);
        t += 2000;
    }
    assert_eq!(c.loop_phase(), LoopPhase::AwaitRising);
}

#[test]
fn release_before_activity_runs_stops_it_at_once() {
    let mut c = Controller::new(3u32);
    c.edge(Edge::Rising, 0).unwrap();
    c.edge(Edge::Falling, 0).unwrap();
    assert_eq!(c.poll(0), Some(Level::Idle));
    assert!(c.device_at_rest());
    assert_eq!(c.task(), TaskView::Absent);
}

#[test]
fn second_press_before_activity_runs_is_refused() {
    let mut c = Controller::new(3u32);
    c.edge(Edge::Rising, 0).unwrap();
    c.edge(Edge::Falling, 0).unwrap();
    assert_eq!(c.edge(Edge::Rising, 0), Err(ControlError::SpawnRefused));
    assert_eq!(c.loop_phase(), LoopPhase::AwaitRising);
    assert_eq!(c.task(), TaskView::Spawned);
}

#[test]
fn unawaited_edges_are_ignored() {
    let mut c = Controller::new(3u32);
    assert_eq!(c.edge(Edge::Falling, 5), Ok(()));
    assert!(!c.stop_pending());
    assert_eq!(c.task(), TaskView::Absent);
    assert_eq!(c.poll(6), None);
    assert!(c.device_at_rest());
}
