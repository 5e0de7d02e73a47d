use framesched::action::{
    Action, Category, ANIM_ATTACK_11, ANIM_ATTACK_12, ANIM_ATTACK_DASH, EFFECT_ATK_SMOKE,
    FLAG_ATTACK_DASH_ENABLE_AIR_CONTINUE, FLAG_ATTACK_DASH_ENABLE_AIR_FALL,
    FLAG_ATTACK_ENABLE_100, FLAG_ATTACK_ENABLE_COMBO, SEQ_RND_ATTACK, STATUS_JUMP,
    STATUS_SPECIAL_S,
};
use framesched::cursor::TimelineCursor;
use framesched::ground::install;
use framesched::opff::{moveset, razorleaf_adc};
use framesched::timeline::on_tick;

#[test]
fn ground_install_registers_five_timelines() {
    let table = install().unwrap();
    assert_eq!(table.entries.len(), 5);
    let keys: Vec<(u64, Category)> =
        table.entries.iter().map(|e| (e.anim, e.category)).collect();
    assert!(keys.contains(&(ANIM_ATTACK_11, Category::Game)));
    assert!(keys.contains(&(ANIM_ATTACK_12, Category::Game)));
    assert!(keys.contains(&(ANIM_ATTACK_DASH, Category::Game)));
    assert!(keys.contains(&(ANIM_ATTACK_DASH, Category::Effect)));
    assert!(keys.contains(&(ANIM_ATTACK_DASH, Category::Sound)));
}

#[test]
fn on_tick_drives_registered_timeline() {
    let table = install().unwrap();
    let mut cur = TimelineCursor::new();
    // The dash attack's effect script opens with the launch smoke at frame 2.
    let fired = on_tick(&table, ANIM_ATTACK_DASH, Category::Effect, &mut cur, 2).unwrap();
    assert_eq!(
        fired,
        vec![
            Action::Effect { effect: EFFECT_ATK_SMOKE },
            Action::EffectRate { percent: 85 },
        ],
    );
    // Same tick again at frame 3: nothing new is due.
    let fired = on_tick(&table, ANIM_ATTACK_DASH, Category::Effect, &mut cur, 3).unwrap();
    assert_eq!(fired, vec![]);
}

#[test]
fn on_tick_absent_registration_is_host_default() {
    let table = install().unwrap();
    let mut cur = TimelineCursor::new();
    assert!(on_tick(&table, ANIM_ATTACK_11, Category::Sound, &mut cur, 0).is_none());
    assert!(on_tick(&table, 12345, Category::Game, &mut cur, 0).is_none());
}

#[test]
fn attack_12_closes_rapid_jab_window() {
    let table = install().unwrap();
    let mut cur = TimelineCursor::new();
    let mut log: Vec<(u64, Vec<Action>)> = Vec::new();
    for elapsed in 0..=14u64 {
        let fired = on_tick(&table, ANIM_ATTACK_12, Category::Game, &mut cur, elapsed).unwrap();
        if !fired.is_empty() {
            log.push((elapsed, fired));
        }
    }
    assert_eq!(log.len(), 3);
    assert_eq!(log[0].0, 6);
    assert_eq!(log[0].1.len(), 4);
    assert_eq!(
        log[1],
        (
            8,
            vec![
                Action::ClearAttacks,
                Action::SetFlag { flag: FLAG_ATTACK_ENABLE_100 },
                Action::SetFlag { flag: FLAG_ATTACK_ENABLE_COMBO },
            ],
        ),
    );
    assert_eq!(log[2], (12, vec![Action::ClearFlag { flag: FLAG_ATTACK_ENABLE_100 }]));
}

#[test]
fn attack_dash_game_flags_open_and_close() {
    let table = install().unwrap();
    let mut cur = TimelineCursor::new();
    let mut log: Vec<(u64, Vec<Action>)> = Vec::new();
    for elapsed in 0..=40u64 {
        let fired = on_tick(&table, ANIM_ATTACK_DASH, Category::Game, &mut cur, elapsed).unwrap();
        if !fired.is_empty() {
            log.push((elapsed, fired));
        }
    }
    let ticks: Vec<u64> = log.iter().map(|(e, _)| *e).collect();
    assert_eq!(ticks, vec![6, 11, 22, 26, 35]);
    assert_eq!(
        log[0].1,
        vec![
            Action::SpawnAttack { box_id: 0 },
            Action::SetFlag { flag: FLAG_ATTACK_DASH_ENABLE_AIR_FALL },
            Action::SetFlag { flag: FLAG_ATTACK_DASH_ENABLE_AIR_CONTINUE },
        ],
    );
    assert_eq!(
        log[3].1,
        vec![
            Action::MotionRate { percent: 150 },
            Action::ClearFlag { flag: FLAG_ATTACK_DASH_ENABLE_AIR_FALL },
            Action::ClearFlag { flag: FLAG_ATTACK_DASH_ENABLE_AIR_CONTINUE },
        ],
    );
    assert_eq!(log[4].1, vec![Action::MotionRate { percent: 100 }]);
}

#[test]
fn attack_dash_sound_plays_once() {
    let table = install().unwrap();
    let mut cur = TimelineCursor::new();
    let mut fired_all: Vec<Action> = Vec::new();
    for elapsed in 0..=40u64 {
        let fired = on_tick(&table, ANIM_ATTACK_DASH, Category::Sound, &mut cur, elapsed).unwrap();
        fired_all.extend(fired);
    }
    assert_eq!(fired_all, vec![Action::Sound { sequence: SEQ_RND_ATTACK }]);
}

#[test]
fn razorleaf_cancel_window_opens_past_frame_24() {
    assert!(!razorleaf_adc(STATUS_SPECIAL_S, 24));
    assert!(razorleaf_adc(STATUS_SPECIAL_S, 25));
    assert!(!razorleaf_adc(STATUS_JUMP, 25));
    assert_eq!(moveset(STATUS_SPECIAL_S, 30), true);
    assert_eq!(moveset(STATUS_SPECIAL_S, 10), false);
    assert_eq!(moveset(STATUS_JUMP, 30), false);
}
