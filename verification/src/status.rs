use vstd::prelude::*;
use crate::action::{
    Action, ConfigError, EVENT_SHOOT_LOG, FLAG_POWBLOCK_QUAKE_JUMP, FLAG_RESERVE_JUMP_MINI,
    LOG_DATA_SHOOT_NUM, MOTION_ATTACK_AIR_B, MOTION_ATTACK_AIR_F, MOTION_ATTACK_AIR_HI,
    MOTION_ATTACK_AIR_LW, MOTION_RIDE_JUMP, STATUS_ATTACK_AIR, STATUS_JUMP,
    STATUS_SPECIAL_S_RIDE, STATUS_SPECIAL_S_RIDE_LOOP, WORK_TURNIP_NUM,
};
use crate::entity::WorkVars;

verus! {

/// Lifecycle moment within a status: Pre runs once before the status becomes
/// active and may veto or redirect the transition, Main runs every tick the
/// status is active, End runs once on exit.
#[derive(Clone, Copy, PartialEq, Eq, Structural, Debug)]
pub enum Phase {
    Pre,
    Main,
    End,
}

/// The handlers this entity kind declares, the tagged-enum counterpart of
/// taking a handler's address: the transition table stores a tag and the
/// dispatcher resolves it.
#[derive(Clone, Copy, PartialEq, Eq, Structural, Debug)]
pub enum HandlerKind {
    /// Setup/veto before entering the jump status.
    PreJump,
    /// Per-tick body of the jump status.
    JumpMain,
    /// Per-tick body of the aerial-attack status.
    AttackAirMain,
}

/// What entering the jump status came from: the ride statuses get their own
/// setup and skip the common one.
pub open spec fn is_ride(prev_status: i32) -> bool {
    prev_status == STATUS_SPECIAL_S_RIDE || prev_status == STATUS_SPECIAL_S_RIDE_LOOP
}

/// What the jump Pre handler decided.
#[derive(Clone, Copy, PartialEq, Eq, Structural, Debug)]
pub struct PreJumpOutcome {
    /// The host-defined accept/override signal: 1 accepts the transition as
    /// declared, 0 forces the overriding setup.
    pub signal: i32,
    /// Whether to apply the fallback jump physics parameters.
    pub apply_fallback: bool,
}

/// What the jump Main handler decided for this tick.
#[derive(Clone, Copy, PartialEq, Eq, Structural, Debug)]
pub struct JumpMainOutcome {
    /// Whether to run the rocket-belt item check of the normal branch.
    pub check_rocketbelt_item: bool,
    /// Motion name hash handed to the jump sub-routine, if any.
    pub jump_sub_motion: Option<u64>,
    /// The status whose main loop takes over for this tick.
    pub redirect: i32,
}

/// What the aerial-attack Main handler decided for this tick.
#[derive(Clone, Copy, PartialEq, Eq, Structural, Debug)]
pub struct AttackAirOutcome {
    /// The shoot-count logging notification to perform, if one is due.
    pub notify: Option<Action>,
    /// The status whose main loop takes over for this tick.
    pub redirect: i32,
}

/// The next value of the bounded rotating counter: advancing from a value in
/// the closed range `[1, 3]` steps `1 -> 2 -> 3 -> 1`; any value outside the
/// range is clamped back to 1. The rotation is deterministic by design —
/// no randomness is permitted in this path.
pub open spec fn rotate(v: int) -> int {
    if 1 <= v <= 3 {
        v % 3 + 1
    } else {
        1
    }
}

/// Advance the rotating counter by one qualifying event. The result always
/// lies in `{1, 2, 3}`.
pub fn advance_rotation(v: i32) -> (r: i32)
    ensures
        r as int == rotate(v as int),
        1 <= r <= 3,
{
    if 1 <= v && v <= 2 {
        v + 1
    } else {
        1
    }
}

/// The jump Pre contract. Entered from a ride status, the handler skips the
/// common jump setup: it clears the two ride reservation flags, applies the
/// fallback jump parameters, and answers the override signal 0. Entered from
/// anywhere else it leaves working memory alone, applies the fallback
/// parameters exactly when the common setup declined, and answers 1.
pub open spec fn pre_jump_post(
    pre: WorkVars,
    post: WorkVars,
    prev_status: i32,
    common_setup_ok: bool,
    out: PreJumpOutcome,
) -> bool {
    if is_ride(prev_status) {
        &&& post.flags() == pre.flags().insert(FLAG_RESERVE_JUMP_MINI, false).insert(
            FLAG_POWBLOCK_QUAKE_JUMP,
            false,
        )
        &&& post.ints() == pre.ints()
        &&& out.apply_fallback
        &&& out.signal == 0
    } else {
        &&& post.flags() == pre.flags()
        &&& post.ints() == pre.ints()
        &&& out.apply_fallback == !common_setup_ok
        &&& out.signal == 1
    }
}

/// Setup/veto before the jump status becomes active. `common_setup_ok` is
/// the host's answer from the common jump setup sub-routine; it is consulted
/// only on the non-ride path.
pub fn pre_jump(vars: &mut WorkVars, prev_status: i32, common_setup_ok: bool) -> (out:
    PreJumpOutcome)
    ensures
        pre_jump_post(*old(vars), *final(vars), prev_status, common_setup_ok, out),
{
    if prev_status != STATUS_SPECIAL_S_RIDE && prev_status != STATUS_SPECIAL_S_RIDE_LOOP {
        PreJumpOutcome { signal: 1, apply_fallback: !common_setup_ok }
    } else {
        vars.off_flag(FLAG_RESERVE_JUMP_MINI);
        vars.off_flag(FLAG_POWBLOCK_QUAKE_JUMP);
        PreJumpOutcome { signal: 0, apply_fallback: true }
    }
}

/// The jump Main contract. A jump entered from a ride status is mechanically
/// a variant of the generic jump: the handler skips the rocket-belt item
/// check, hands the ride motion to the jump sub-routine, and redirects to the
/// generic jump main loop. Entered from anywhere else it runs the item check,
/// hands no motion over, and redirects to the same loop. Exactly one branch's
/// logic runs per tick.
pub open spec fn jump_post(prev_status: i32, out: JumpMainOutcome) -> bool {
    &&& out.redirect == STATUS_JUMP
    &&& if is_ride(prev_status) {
        out.jump_sub_motion == Some(MOTION_RIDE_JUMP) && !out.check_rocketbelt_item
    } else {
        out.jump_sub_motion is None && out.check_rocketbelt_item
    }
}

/// Per-tick body of the jump status: pick the branch from the previous
/// status, then alias this tick to the generic jump's main loop.
pub fn jump(prev_status: i32) -> (out: JumpMainOutcome)
    ensures
        jump_post(prev_status, out),
{
    if prev_status != STATUS_SPECIAL_S_RIDE && prev_status != STATUS_SPECIAL_S_RIDE_LOOP {
        JumpMainOutcome {
            check_rocketbelt_item: true,
            jump_sub_motion: None,
            redirect: STATUS_JUMP,
        }
    } else {
        JumpMainOutcome {
            check_rocketbelt_item: false,
            jump_sub_motion: Some(MOTION_RIDE_JUMP),
            redirect: STATUS_JUMP,
        }
    }
}

/// Status redirection is exclusive: entering the jump from a ride status
/// executes exactly the ride branch — the generic jump main loop runs with
/// the ride motion, and the normal branch's rocket-belt item check does not
/// run on that tick. Entering from anywhere else executes exactly the normal
/// branch.
pub proof fn lemma_jump_redirect_exclusive(prev_status: i32, out: JumpMainOutcome)
    requires
        jump_post(prev_status, out),
    ensures
        out.redirect == STATUS_JUMP,
        is_ride(prev_status) ==> out.jump_sub_motion == Some(MOTION_RIDE_JUMP)
            && !out.check_rocketbelt_item,
        !is_ride(prev_status) ==> out.jump_sub_motion is None && out.check_rocketbelt_item,
{
}

/// Whether an aerial motion qualifies for the rotating counter: the upward
/// and downward aerials form the allow-set.
pub open spec fn rotation_motion(motion: u64) -> bool {
    motion == MOTION_ATTACK_AIR_HI || motion == MOTION_ATTACK_AIR_LW
}

/// Whether an aerial motion notifies the shoot-count log: the forward and
/// backward aerials do.
pub open spec fn shoot_motion(motion: u64) -> bool {
    motion == MOTION_ATTACK_AIR_F || motion == MOTION_ATTACK_AIR_B
}

/// The aerial-attack Main contract. On a qualifying motion the rotating
/// counter advances by the clamped rotation — an explicit design choice in
/// place of the usual random pull — and nothing else in working memory
/// moves; on any other motion working memory is untouched. The shoot
/// notification fires exactly for the forward and backward aerials, and the
/// tick always ends aliased to the generic aerial-attack main loop.
pub open spec fn attack_air_post(
    pre: WorkVars,
    post: WorkVars,
    motion: u64,
    out: AttackAirOutcome,
) -> bool {
    &&& out.redirect == STATUS_ATTACK_AIR
    &&& out.notify == if shoot_motion(motion) {
        Some(Action::NotifyEvent { event: EVENT_SHOOT_LOG, value: LOG_DATA_SHOOT_NUM })
    } else {
        None
    }
    &&& if rotation_motion(motion) {
        post.ints() == pre.ints().insert(WORK_TURNIP_NUM, rotate(pre.int_at(WORK_TURNIP_NUM) as int) as i32)
            && post.flags() == pre.flags()
    } else {
        post.ints() == pre.ints() && post.flags() == pre.flags()
    }
}

/// Per-tick body of the aerial-attack status. `motion` is the animation the
/// host chose for this attack.
pub fn attack_air(vars: &mut WorkVars, motion: u64) -> (out: AttackAirOutcome)
    ensures
        attack_air_post(*old(vars), *final(vars), motion, out),
{
    if motion == MOTION_ATTACK_AIR_HI || motion == MOTION_ATTACK_AIR_LW {
        let turnip_num = vars.get_int(WORK_TURNIP_NUM);
        let next = advance_rotation(turnip_num);
        vars.set_int(WORK_TURNIP_NUM, next);
    }
    let notify = if motion == MOTION_ATTACK_AIR_F || motion == MOTION_ATTACK_AIR_B {
        Some(Action::NotifyEvent { event: EVENT_SHOOT_LOG, value: LOG_DATA_SHOOT_NUM })
    } else {
        None
    };
    AttackAirOutcome { notify, redirect: STATUS_ATTACK_AIR }
}

/// One handler registration: at most one handler per `(status, phase)` key.
#[derive(Clone, Copy, PartialEq, Eq, Structural, Debug)]
pub struct StatusEntry {
    pub status: i32,
    pub phase: Phase,
    pub handler: HandlerKind,
}

/// The per-entity-kind status transition table, built once at startup and
/// read-only afterwards.
#[derive(Clone, Debug)]
pub struct StatusTable {
    pub entries: Vec<StatusEntry>,
}

/// The handler registered under `(status, phase)`, if any. Absence is not an
/// error: the host's default behavior applies.
pub open spec fn find_handler(s: Seq<StatusEntry>, status: i32, phase: Phase) -> Option<HandlerKind>
    decreases s.len(),
{
    if s.len() == 0 {
        None
    } else if s[0].status == status && s[0].phase == phase {
        Some(s[0].handler)
    } else {
        find_handler(s.drop_first(), status, phase)
    }
}

/// Registering under a free key finds the new handler, leaves every other
/// key's answer unchanged.
pub proof fn lemma_install_frame(s: Seq<StatusEntry>, e: StatusEntry, status: i32, phase: Phase)
    requires
        find_handler(s, e.status, e.phase) is None,
    ensures
        find_handler(s.push(e), e.status, e.phase) == Some(e.handler),
        !(status == e.status && phase == e.phase) ==> find_handler(s.push(e), status, phase)
            == find_handler(s, status, phase),
    decreases s.len(),
{
    if s.len() == 0 {
        assert(s.push(e)[0] == e);
        assert(s.push(e).drop_first() =~= Seq::<StatusEntry>::empty());
        assert(find_handler(Seq::<StatusEntry>::empty(), status, phase) is None);
        assert(find_handler(Seq::<StatusEntry>::empty(), e.status, e.phase) is None);
    } else {
        assert(s.push(e)[0] == s[0]);
        assert(s.push(e).drop_first() =~= s.drop_first().push(e));
        lemma_install_frame(s.drop_first(), e, status, phase);
        if !(status == e.status && phase == e.phase) {
            if s[0].status == status && s[0].phase == phase {
                assert(find_handler(s.push(e), status, phase) == Some(s[0].handler));
            } else {
                assert(find_handler(s.push(e), status, phase) == find_handler(
                    s.drop_first().push(e),
                    status,
                    phase,
                ));
                assert(find_handler(s, status, phase) == find_handler(
                    s.drop_first(),
                    status,
                    phase,
                ));
            }
        }
    }
}

impl StatusTable {
    /// An empty transition table.
    pub fn new() -> (r: Self)
        ensures
            r.entries@.len() == 0,
    {
        StatusTable { entries: Vec::new() }
    }

    /// The handler registered under `(status, phase)`, if any.
    pub fn lookup(&self, status: i32, phase: Phase) -> (r: Option<HandlerKind>)
        ensures
            r == find_handler(self.entries@, status, phase),
    {
        let mut i: usize = 0;
        proof {
            assert(self.entries@.skip(0) =~= self.entries@);
        }
        while i < self.entries.len()
            invariant
                i <= self.entries.len(),
                find_handler(self.entries@, status, phase) == find_handler(
                    self.entries@.skip(i as int),
                    status,
                    phase,
                ),
            decreases self.entries.len() - i,
        {
            let e = self.entries[i];
            assert(self.entries@.skip(i as int)[0] == self.entries@[i as int]);
            assert(self.entries@.skip(i as int).drop_first() =~= self.entries@.skip(i + 1 as int));
            if e.status == status && e.phase == phase {
                return Some(e.handler);
            }
            i = i + 1;
        }
        assert(self.entries@.skip(self.entries@.len() as int) =~= Seq::<StatusEntry>::empty());
        None
    }
}

/// Register `handler` under `(status, phase)`. Registration happens once at
/// startup; a duplicate key is a fatal configuration error, reported here and
/// never at tick time.
pub fn install_handler(table: &mut StatusTable, status: i32, phase: Phase, handler: HandlerKind)
    -> (r: Result<(), ConfigError>)
    ensures
        match r {
            Ok(()) => {
                &&& find_handler(old(table).entries@, status, phase) is None
                &&& final(table).entries@ == old(table).entries@.push(
                    StatusEntry { status, phase, handler },
                )
            },
            Err(e) => {
                &&& e == ConfigError::DuplicateKey
                &&& find_handler(old(table).entries@, status, phase) is Some
                &&& final(table).entries@ == old(table).entries@
            },
        },
{
    if table.lookup(status, phase).is_some() {
        return Err(ConfigError::DuplicateKey);
    }
    table.entries.push(StatusEntry { status, phase, handler });
    Ok(())
}

/// The status whose main loop a handler redirects to, if it redirects.
pub open spec fn redirect_target(handler: HandlerKind) -> Option<i32> {
    match handler {
        HandlerKind::PreJump => None,
        HandlerKind::JumpMain => Some(STATUS_JUMP),
        HandlerKind::AttackAirMain => Some(STATUS_ATTACK_AIR),
    }
}

/// Whether every redirect target in the table resolves: each target is a
/// status whose main loop the host provides (`host_mains`) or one with a
/// registered Main handler. An unresolvable target is a fatal configuration
/// error, detected when the table is built, not at tick time.
pub open spec fn redirects_resolve(s: Seq<StatusEntry>, host_mains: Seq<i32>) -> bool {
    forall|k: int|
        0 <= k < s.len() ==> match #[trigger] redirect_target(s[k].handler) {
            None => true,
            Some(target) => host_mains.contains(target) || find_handler(
                s,
                target,
                Phase::Main,
            ) is Some,
        }
}

/// Whether `v` holds `x`.
fn contains_status(v: &Vec<i32>, x: i32) -> (b: bool)
    ensures
        b == v@.contains(x),
{
    let mut i: usize = 0;
    while i < v.len()
        invariant
            i <= v.len(),
            forall|k: int| 0 <= k < i ==> v@[k] != x,
        decreases v.len() - i,
    {
        if v[i] == x {
            return true;
        }
        i = i + 1;
    }
    false
}

/// Validate every redirect target in the table, for use when the table is
/// built: a `false` answer is a fatal configuration error.
pub fn validate_redirects(table: &StatusTable, host_mains: &Vec<i32>) -> (ok: bool)
    ensures
        ok == redirects_resolve(table.entries@, host_mains@),
{
    let mut i: usize = 0;
    while i < table.entries.len()
        invariant
            i <= table.entries.len(),
            forall|k: int|
                0 <= k < i ==> match #[trigger] redirect_target(table.entries@[k].handler) {
                    None => true,
                    Some(target) => host_mains@.contains(target) || find_handler(
                        table.entries@,
                        target,
                        Phase::Main,
                    ) is Some,
                },
        decreases table.entries.len() - i,
    {
        let target_opt: Option<i32> = match table.entries[i].handler {
            HandlerKind::PreJump => None,
            HandlerKind::JumpMain => Some(STATUS_JUMP),
            HandlerKind::AttackAirMain => Some(STATUS_ATTACK_AIR),
        };
        assert(target_opt == redirect_target(table.entries@[i as int].handler));
        if let Some(target) = target_opt {
            if !contains_status(host_mains, target) {
                if table.lookup(target, Phase::Main).is_none() {
                    return false;
                }
            }
        }
        i = i + 1;
    }
    true
}

/// The per-tick inputs a handler may consult, gathered by the host.
#[derive(Clone, Copy, PartialEq, Eq, Structural, Debug)]
pub struct TickInput {
    /// The status the entity was in before the current one.
    pub prev_status: i32,
    /// The motion the host chose for the current animation.
    pub motion: u64,
    /// The host's answer from the common jump setup sub-routine.
    pub common_setup_ok: bool,
}

/// What one `(status, phase)` dispatch produced.
#[derive(Clone, Copy, PartialEq, Eq, Structural, Debug)]
pub enum PhaseOutcome {
    /// No handler registered: the host's default behavior applies.
    HostDefault,
    /// The jump Pre handler ran.
    Pre(PreJumpOutcome),
    /// The jump Main handler ran.
    JumpMain(JumpMainOutcome),
    /// The aerial-attack Main handler ran.
    AttackAirMain(AttackAirOutcome),
}

/// Dispatch one `(status, phase)` invocation for the entity owning `vars`:
/// look the handler up and run it on this tick's inputs. Redirection, where a
/// handler declares it, is part of the outcome and happens before any
/// timeline work this tick.
pub fn on_status_phase(
    table: &StatusTable,
    vars: &mut WorkVars,
    status: i32,
    phase: Phase,
    input: TickInput,
) -> (out: PhaseOutcome)
    ensures
        match find_handler(table.entries@, status, phase) {
            None => out == PhaseOutcome::HostDefault && *final(vars) == *old(vars),
            Some(HandlerKind::PreJump) => out matches PhaseOutcome::Pre(o) && pre_jump_post(
                *old(vars),
                *final(vars),
                input.prev_status,
                input.common_setup_ok,
                o,
            ),
            Some(HandlerKind::JumpMain) => out matches PhaseOutcome::JumpMain(o) && jump_post(
                input.prev_status,
                o,
            ) && *final(vars) == *old(vars),
            Some(HandlerKind::AttackAirMain) => out matches PhaseOutcome::AttackAirMain(o)
                && attack_air_post(*old(vars), *final(vars), input.motion, o),
        },
{
    match table.lookup(status, phase) {
        None => PhaseOutcome::HostDefault,
        Some(HandlerKind::PreJump) => PhaseOutcome::Pre(
            pre_jump(vars, input.prev_status, input.common_setup_ok),
        ),
        Some(HandlerKind::JumpMain) => PhaseOutcome::JumpMain(jump(input.prev_status)),
        Some(HandlerKind::AttackAirMain) => PhaseOutcome::AttackAirMain(
            attack_air(vars, input.motion),
        ),
    }
}

/// Build this entity kind's status transition table: the jump Pre and Main
/// handlers and the aerial-attack Main handler, each under its own key.
pub fn install() -> (r: Result<StatusTable, ConfigError>)
    ensures
        r matches Ok(t) && t.entries@.len() == 3 && find_handler(t.entries@, STATUS_JUMP, Phase::Pre)
            == Some(HandlerKind::PreJump) && find_handler(t.entries@, STATUS_JUMP, Phase::Main)
            == Some(HandlerKind::JumpMain) && find_handler(
            t.entries@,
            STATUS_ATTACK_AIR,
            Phase::Main,
        ) == Some(HandlerKind::AttackAirMain),
{
    let mut t = StatusTable::new();
    let ghost s0 = t.entries@;
    let ghost e1 = StatusEntry {
        status: STATUS_JUMP,
        phase: Phase::Pre,
        handler: HandlerKind::PreJump,
    };
    let ghost e2 = StatusEntry {
        status: STATUS_JUMP,
        phase: Phase::Main,
        handler: HandlerKind::JumpMain,
    };
    let ghost e3 = StatusEntry {
        status: STATUS_ATTACK_AIR,
        phase: Phase::Main,
        handler: HandlerKind::AttackAirMain,
    };
    proof {
        assert(find_handler(s0, STATUS_JUMP, Phase::Pre) is None);
        assert(find_handler(s0, STATUS_JUMP, Phase::Main) is None);
        assert(find_handler(s0, STATUS_ATTACK_AIR, Phase::Main) is None);
    }
    if let Err(e) = install_handler(&mut t, STATUS_JUMP, Phase::Pre, HandlerKind::PreJump) {
        return Err(e);
    }
    let ghost s1 = t.entries@;
    proof {
        lemma_install_frame(s0, e1, STATUS_JUMP, Phase::Main);
        lemma_install_frame(s0, e1, STATUS_ATTACK_AIR, Phase::Main);
    }
    if let Err(e) = install_handler(&mut t, STATUS_JUMP, Phase::Main, HandlerKind::JumpMain) {
        return Err(e);
    }
    let ghost s2 = t.entries@;
    proof {
        lemma_install_frame(s1, e2, STATUS_ATTACK_AIR, Phase::Main);
        lemma_install_frame(s1, e2, STATUS_JUMP, Phase::Pre);
    }
    if let Err(e) = install_handler(
        &mut t,
        STATUS_ATTACK_AIR,
        Phase::Main,
        HandlerKind::AttackAirMain,
    ) {
        return Err(e);
    }
    proof {
        lemma_install_frame(s2, e3, STATUS_JUMP, Phase::Pre);
        lemma_install_frame(s2, e3, STATUS_JUMP, Phase::Main);
    }
    Ok(t)
}

} // verus!
