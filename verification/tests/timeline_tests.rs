use framesched::action::{Action, ConfigError};
use framesched::cursor::TimelineCursor;
use framesched::timeline::{install_timeline, Block, Gate, Timeline, TimelineTable};

fn single_gate_timeline(frame: u64, action: Action) -> Timeline {
    Timeline { blocks: vec![Block { gate: Gate::At(frame), actions: vec![action] }] }
}

#[test]
fn gate_fires_exactly_once() {
    let tl = single_gate_timeline(3, Action::ClearAttacks);
    let mut cur = TimelineCursor::new();
    for elapsed in 0..3u64 {
        assert_eq!(tl.run_tick(&mut cur, elapsed), vec![]);
    }
    assert_eq!(tl.run_tick(&mut cur, 3), vec![Action::ClearAttacks]);
    for elapsed in 4..10u64 {
        assert_eq!(tl.run_tick(&mut cur, elapsed), vec![]);
    }
}

#[test]
fn simultaneous_gates_fire_in_declared_order() {
    // A timeline with thresholds [(6, A), (6, B), (14, C)]: A and B fire on
    // the tick where elapsed first reaches 6, in declared order, C when it
    // first reaches 14, and nothing re-fires afterwards.
    let a = Action::SpawnAttack { box_id: 0 };
    let b = Action::SpawnAttack { box_id: 1 };
    let c = Action::SpawnAttack { box_id: 2 };
    let tl = Timeline {
        blocks: vec![
            Block { gate: Gate::At(6), actions: vec![a] },
            Block { gate: Gate::At(6), actions: vec![b] },
            Block { gate: Gate::At(14), actions: vec![c] },
        ],
    };
    let mut cur = TimelineCursor::new();
    let mut log: Vec<(u64, Vec<Action>)> = Vec::new();
    for elapsed in 0..=20u64 {
        let fired = tl.run_tick(&mut cur, elapsed);
        if !fired.is_empty() {
            log.push((elapsed, fired));
        }
    }
    assert_eq!(log, vec![(6, vec![a, b]), (14, vec![c])]);
}

#[test]
fn frame_drop_catches_up_in_ascending_order() {
    // Jumping from elapsed 0 to 20 in one tick fires every threshold in
    // between, once each, in ascending order, within that single tick.
    let tl = framesched::ground::younglink_attack_11_game();
    let mut cur = TimelineCursor::new();
    assert_eq!(tl.run_tick(&mut cur, 0), vec![]);
    let fired = tl.run_tick(&mut cur, 20);
    assert_eq!(
        fired,
        vec![
            Action::SpawnAttack { box_id: 0 },
            Action::SpawnAttack { box_id: 1 },
            Action::SpawnAttack { box_id: 2 },
            Action::SpawnAttack { box_id: 3 },
            Action::ClearAttacks,
            Action::SetFlag { flag: framesched::action::FLAG_ATTACK_ENABLE_COMBO },
        ],
    );
    assert_eq!(tl.run_tick(&mut cur, 21), vec![]);
}

#[test]
fn reset_reenables_all_gates() {
    // After a context reset (animation restart), every threshold becomes
    // eligible to fire again from scratch.
    let tl = single_gate_timeline(6, Action::ClearAttacks);
    let mut cur = TimelineCursor::new();
    assert_eq!(tl.run_tick(&mut cur, 6), vec![Action::ClearAttacks]);
    assert_eq!(tl.run_tick(&mut cur, 7), vec![]);
    cur.reset();
    assert_eq!(tl.run_tick(&mut cur, 6), vec![Action::ClearAttacks]);
}

#[test]
fn wait_gate_is_relative_to_previous_gate() {
    // The dash attack's trailing wait block sits nine frames after frame 26.
    let tl = framesched::ground::younglink_attack_dash_game();
    let mut cur = TimelineCursor::new();
    let mut fired_at_34: Vec<Action> = Vec::new();
    let mut fired_at_35: Vec<Action> = Vec::new();
    for elapsed in 0..=35u64 {
        let fired = tl.run_tick(&mut cur, elapsed);
        if elapsed == 34 {
            fired_at_34 = fired;
        } else if elapsed == 35 {
            fired_at_35 = fired;
        }
    }
    assert_eq!(fired_at_34, vec![]);
    assert_eq!(fired_at_35, vec![Action::MotionRate { percent: 100 }]);
}

#[test]
fn cursor_gate_liveness_is_edge_triggered() {
    let mut cur = TimelineCursor::new();
    cur.begin_tick(5);
    cur.declare(5);
    assert!(cur.is_live());
    cur.begin_tick(6);
    cur.declare(5);
    assert!(!cur.is_live());
    cur.declare_wait(1);
    assert!(cur.is_live());
}

#[test]
fn malformed_timeline_rejected_at_install() {
    let mut table = TimelineTable::new();
    let backwards = Timeline {
        blocks: vec![
            Block { gate: Gate::At(10), actions: vec![] },
            Block { gate: Gate::At(5), actions: vec![] },
        ],
    };
    let r = install_timeline(
        &mut table,
        1,
        framesched::action::Category::Game,
        backwards,
    );
    assert_eq!(r, Err(ConfigError::MalformedTimeline));
    assert_eq!(table.entries.len(), 0);
}

#[test]
fn duplicate_timeline_key_rejected_at_install() {
    let mut table = TimelineTable::new();
    let ok = install_timeline(
        &mut table,
        1,
        framesched::action::Category::Game,
        single_gate_timeline(1, Action::ClearAttacks),
    );
    assert_eq!(ok, Ok(()));
    let dup = install_timeline(
        &mut table,
        1,
        framesched::action::Category::Game,
        single_gate_timeline(2, Action::ClearAttacks),
    );
    assert_eq!(dup, Err(ConfigError::DuplicateKey));
    assert_eq!(table.entries.len(), 1);
}
