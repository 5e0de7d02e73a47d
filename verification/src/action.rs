use vstd::prelude::*;

verus! {

// Host-assigned stable identifiers. Statuses, working-memory keys, animation
// names, effect names and sound sequences are all opaque tags to the
// scheduler: it only ever compares them for equality. Animation, effect and
// sound identifiers use the host's 40-bit name-hash values; status kinds and
// working-memory keys are the host's enumeration tags.

/// Status kind: the shared jump state.
pub const STATUS_JUMP: i32 = 11;
/// Status kind: the shared aerial-attack state.
pub const STATUS_ATTACK_AIR: i32 = 12;
/// Status kind: the shared side-special state.
pub const STATUS_SPECIAL_S: i32 = 25;
/// Status kind: the character-specific side-special ride state.
pub const STATUS_SPECIAL_S_RIDE: i32 = 64;
/// Status kind: the looping tail of the side-special ride state.
pub const STATUS_SPECIAL_S_RIDE_LOOP: i32 = 65;

/// Working-memory key: reservation flag for a minimal jump.
pub const FLAG_RESERVE_JUMP_MINI: u64 = 1;
/// Working-memory key: flag for the block-quake jump variant.
pub const FLAG_POWBLOCK_QUAKE_JUMP: u64 = 2;
/// Working-memory key: flag allowing a follow-up combo out of an attack.
pub const FLAG_ATTACK_ENABLE_COMBO: u64 = 3;
/// Working-memory key: flag enabling the rapid-jab follow-up.
pub const FLAG_ATTACK_ENABLE_100: u64 = 4;
/// Working-memory key: flag letting the dash attack fall off an edge.
pub const FLAG_ATTACK_DASH_ENABLE_AIR_FALL: u64 = 5;
/// Working-memory key: flag letting the dash attack continue in the air.
pub const FLAG_ATTACK_DASH_ENABLE_AIR_CONTINUE: u64 = 6;
/// Working-memory key: the rotating projectile-pull counter.
pub const WORK_TURNIP_NUM: u64 = 16;

/// Motion name hash of the upward aerial attack animation.
pub const MOTION_ATTACK_AIR_HI: u64 = 0xdde67d935;
/// Motion name hash of the downward aerial attack animation.
pub const MOTION_ATTACK_AIR_LW: u64 = 0xd40042152;
/// Motion name hash of the forward aerial attack animation.
pub const MOTION_ATTACK_AIR_F: u64 = 0xc3495ada5;
/// Motion name hash of the backward aerial attack animation.
pub const MOTION_ATTACK_AIR_B: u64 = 0xc33f869bc;
/// Motion name hash passed to the jump sub-routine when entering from a ride.
pub const MOTION_RIDE_JUMP: u64 = 0x62abde441;

/// Event name hash notified when a forward or backward aerial fires.
pub const EVENT_SHOOT_LOG: u64 = 0x20cbc92683;
/// Log-data slot recorded with [`EVENT_SHOOT_LOG`].
pub const LOG_DATA_SHOOT_NUM: i32 = 1;

/// Animation id of the first grounded jab.
pub const ANIM_ATTACK_11: u64 = 0x8af37e1fa;
/// Animation id of the second grounded jab.
pub const ANIM_ATTACK_12: u64 = 0x8363eb040;
/// Animation id of the dash attack.
pub const ANIM_ATTACK_DASH: u64 = 0xaaf93746e;

/// Effect name hash of the grounded attack smoke puff.
pub const EFFECT_ATK_SMOKE: u64 = 0xd0679b24d;
/// Effect name hash of the small spinning wind trail.
pub const EFFECT_SPIN_WIND_S: u64 = 0xf5ea22dd6;
/// Effect name hash of the landing dust cloud.
pub const EFFECT_DOWN_SMOKE: u64 = 0xe963002d8;
/// Effect name hash of the turning dust cloud.
pub const EFFECT_TURN_SMOKE: u64 = 0xec09045bb;
/// Sound sequence hash of the randomized attack voice clips.
pub const SEQ_RND_ATTACK: u64 = 0x1879d68328;

/// An opaque side-effecting call handed back to the host. The scheduler
/// guarantees ordering and at-most-once firing of these descriptors but
/// never interprets them; the geometry, visual and audio parameters behind
/// each identifier are host data tables.
#[derive(Clone, Copy, PartialEq, Eq, Structural, Debug)]
pub enum Action {
    /// Create the attack box with the given per-script slot.
    SpawnAttack { box_id: u64 },
    /// Remove every attack box this script created.
    ClearAttacks,
    /// Turn a working-memory flag on.
    SetFlag { flag: u64 },
    /// Turn a working-memory flag off.
    ClearFlag { flag: u64 },
    /// Scale the animation playback rate, in percent.
    MotionRate { percent: u64 },
    /// Spawn the named visual effect.
    Effect { effect: u64 },
    /// Scale the most recently spawned effect's playback rate, in percent.
    EffectRate { percent: u64 },
    /// Play the named sound sequence.
    Sound { sequence: u64 },
    /// Notify the host's logging channel of a named event.
    NotifyEvent { event: u64, value: i32 },
}

/// Category of a timeline: which side-effect channel its actions drive.
#[derive(Clone, Copy, PartialEq, Eq, Structural, Debug)]
pub enum Category {
    /// Attack geometry and gameplay flags.
    Game,
    /// Visual effects.
    Effect,
    /// Audio.
    Sound,
}

/// A configuration fault, detected at installation time, before any tick runs.
#[derive(Clone, Copy, PartialEq, Eq, Structural, Debug)]
pub enum ConfigError {
    /// Two registrations share one lookup key.
    DuplicateKey,
    /// A timeline declares its frame gates out of order or past the frame limit.
    MalformedTimeline,
}

} // verus!
