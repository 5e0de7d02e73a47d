use framesched::action::{
    Action, ConfigError, EVENT_SHOOT_LOG, FLAG_POWBLOCK_QUAKE_JUMP, FLAG_RESERVE_JUMP_MINI,
    LOG_DATA_SHOOT_NUM, MOTION_ATTACK_AIR_B, MOTION_ATTACK_AIR_F, MOTION_ATTACK_AIR_HI,
    MOTION_ATTACK_AIR_LW, MOTION_RIDE_JUMP, STATUS_ATTACK_AIR, STATUS_JUMP,
    STATUS_SPECIAL_S_RIDE, STATUS_SPECIAL_S_RIDE_LOOP, WORK_TURNIP_NUM,
};
use framesched::entity::WorkVars;
use framesched::status::{
    advance_rotation, attack_air, install, install_handler, jump, on_status_phase, pre_jump,
    validate_redirects, HandlerKind, Phase, PhaseOutcome, StatusTable, TickInput,
};

#[test]
fn rotation_counter_sequence() {
    // Four qualifying events in a row starting from counter value 1 give the
    // observed sequence 2, 3, 1, 2.
    let mut v = 1;
    let mut seen = Vec::new();
    for _ in 0..4 {
        v = advance_rotation(v);
        seen.push(v);
    }
    assert_eq!(seen, vec![2, 3, 1, 2]);
}

#[test]
fn rotation_counter_clamps_out_of_range() {
    assert_eq!(advance_rotation(0), 1);
    assert_eq!(advance_rotation(3), 1);
    assert_eq!(advance_rotation(4), 1);
    assert_eq!(advance_rotation(-7), 1);
    assert_eq!(advance_rotation(i32::MAX), 1);
}

#[test]
fn attack_air_rotates_on_qualifying_motions_only() {
    let expected_notify = Action::NotifyEvent { event: EVENT_SHOOT_LOG, value: LOG_DATA_SHOOT_NUM };
    let mut vars = WorkVars::new();
    // Lazily defaulted counter starts at 0: first qualifying event clamps to 1.
    let out = attack_air(&mut vars, MOTION_ATTACK_AIR_HI);
    assert_eq!(vars.get_int(WORK_TURNIP_NUM), 1);
    assert_eq!(out.notify, None);
    let out = attack_air(&mut vars, MOTION_ATTACK_AIR_LW);
    assert_eq!(vars.get_int(WORK_TURNIP_NUM), 2);
    assert_eq!(out.notify, None);
    // Forward and backward aerials notify the shoot log and leave the counter alone.
    let out = attack_air(&mut vars, MOTION_ATTACK_AIR_F);
    assert_eq!(vars.get_int(WORK_TURNIP_NUM), 2);
    assert_eq!(out.notify, Some(expected_notify));
    let out = attack_air(&mut vars, MOTION_ATTACK_AIR_B);
    assert_eq!(vars.get_int(WORK_TURNIP_NUM), 2);
    assert_eq!(out.notify, Some(expected_notify));
    assert_eq!(out.redirect, STATUS_ATTACK_AIR);
}

#[test]
fn pre_jump_normal_entry_keeps_memory() {
    let mut vars = WorkVars::new();
    vars.on_flag(FLAG_RESERVE_JUMP_MINI);
    let out = pre_jump(&mut vars, STATUS_JUMP, true);
    assert_eq!(out.signal, 1);
    assert!(!out.apply_fallback);
    assert!(vars.is_flag(FLAG_RESERVE_JUMP_MINI));
    let out = pre_jump(&mut vars, STATUS_JUMP, false);
    assert_eq!(out.signal, 1);
    assert!(out.apply_fallback);
}

#[test]
fn pre_jump_ride_entry_clears_reservations() {
    for prev in [STATUS_SPECIAL_S_RIDE, STATUS_SPECIAL_S_RIDE_LOOP] {
        let mut vars = WorkVars::new();
        vars.on_flag(FLAG_RESERVE_JUMP_MINI);
        vars.on_flag(FLAG_POWBLOCK_QUAKE_JUMP);
        let out = pre_jump(&mut vars, prev, true);
        assert_eq!(out.signal, 0);
        assert!(out.apply_fallback);
        assert!(!vars.is_flag(FLAG_RESERVE_JUMP_MINI));
        assert!(!vars.is_flag(FLAG_POWBLOCK_QUAKE_JUMP));
    }
}

#[test]
fn jump_redirect_excludes_normal_branch() {
    // Entering the jump from the ride status runs the ride branch's logic
    // for the tick and not the normal branch's item check.
    let out = jump(STATUS_SPECIAL_S_RIDE);
    assert!(!out.check_rocketbelt_item);
    assert_eq!(out.jump_sub_motion, Some(MOTION_RIDE_JUMP));
    assert_eq!(out.redirect, STATUS_JUMP);
    let out = jump(STATUS_SPECIAL_S_RIDE_LOOP);
    assert!(!out.check_rocketbelt_item);
    assert_eq!(out.jump_sub_motion, Some(MOTION_RIDE_JUMP));
    // Any other previous status runs the normal branch only.
    let out = jump(STATUS_JUMP);
    assert!(out.check_rocketbelt_item);
    assert_eq!(out.jump_sub_motion, None);
    assert_eq!(out.redirect, STATUS_JUMP);
}

#[test]
fn install_builds_table_and_dispatches() {
    let table = install().unwrap();
    assert_eq!(table.entries.len(), 3);
    let mut vars = WorkVars::new();
    let input = TickInput {
        prev_status: STATUS_SPECIAL_S_RIDE,
        motion: MOTION_ATTACK_AIR_HI,
        common_setup_ok: true,
    };
    match on_status_phase(&table, &mut vars, STATUS_JUMP, Phase::Pre, input) {
        PhaseOutcome::Pre(o) => assert_eq!(o.signal, 0),
        other => panic!("expected the jump Pre handler, got {:?}", other),
    }
    match on_status_phase(&table, &mut vars, STATUS_JUMP, Phase::Main, input) {
        PhaseOutcome::JumpMain(o) => assert_eq!(o.jump_sub_motion, Some(MOTION_RIDE_JUMP)),
        other => panic!("expected the jump Main handler, got {:?}", other),
    }
    match on_status_phase(&table, &mut vars, STATUS_ATTACK_AIR, Phase::Main, input) {
        PhaseOutcome::AttackAirMain(o) => assert_eq!(o.notify, None),
        other => panic!("expected the aerial Main handler, got {:?}", other),
    }
    assert_eq!(vars.get_int(WORK_TURNIP_NUM), 1);
    // Absence of a handler is not an error: the host default applies.
    let out = on_status_phase(&table, &mut vars, STATUS_ATTACK_AIR, Phase::End, input);
    assert_eq!(out, PhaseOutcome::HostDefault);
}

#[test]
fn duplicate_handler_key_rejected_at_install() {
    let mut table = StatusTable::new();
    let ok = install_handler(&mut table, STATUS_JUMP, Phase::Main, HandlerKind::JumpMain);
    assert_eq!(ok, Ok(()));
    let dup = install_handler(&mut table, STATUS_JUMP, Phase::Main, HandlerKind::PreJump);
    assert_eq!(dup, Err(ConfigError::DuplicateKey));
    assert_eq!(table.entries.len(), 1);
}

#[test]
fn redirect_targets_validated_against_host_mains() {
    let table = install().unwrap();
    // Both redirect targets resolve when the host provides the generic main loops.
    let hosts = vec![STATUS_JUMP, STATUS_ATTACK_AIR];
    assert!(validate_redirects(&table, &hosts));
    // With no host main loops the targets still resolve against the table's
    // own registered Main handlers.
    assert!(validate_redirects(&table, &vec![]));
    // A handler whose redirect target has neither a host main loop nor a
    // registered Main handler is a configuration fault: here the jump Main
    // handler sits under another status, so its target never resolves.
    let mut lone = StatusTable::new();
    install_handler(&mut lone, STATUS_ATTACK_AIR, Phase::Main, HandlerKind::JumpMain).unwrap();
    assert!(!validate_redirects(&lone, &vec![]));
    assert!(validate_redirects(&lone, &vec![STATUS_JUMP]));
}

#[test]
fn workvars_lazily_default_and_overwrite() {
    let mut vars = WorkVars::new();
    assert_eq!(vars.get_int(WORK_TURNIP_NUM), 0);
    assert!(!vars.is_flag(FLAG_RESERVE_JUMP_MINI));
    vars.set_int(WORK_TURNIP_NUM, 3);
    assert_eq!(vars.get_int(WORK_TURNIP_NUM), 3);
    vars.set_int(WORK_TURNIP_NUM, -5);
    assert_eq!(vars.get_int(WORK_TURNIP_NUM), -5);
    vars.on_flag(FLAG_RESERVE_JUMP_MINI);
    assert!(vars.is_flag(FLAG_RESERVE_JUMP_MINI));
    vars.off_flag(FLAG_RESERVE_JUMP_MINI);
    assert!(!vars.is_flag(FLAG_RESERVE_JUMP_MINI));
    // Distinct keys do not interfere.
    vars.on_flag(FLAG_POWBLOCK_QUAKE_JUMP);
    assert!(!vars.is_flag(FLAG_RESERVE_JUMP_MINI));
    assert!(vars.is_flag(FLAG_POWBLOCK_QUAKE_JUMP));
}
