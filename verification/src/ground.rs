use vstd::prelude::*;
use crate::action::{
    Action, Category, ConfigError, ANIM_ATTACK_11, ANIM_ATTACK_12, ANIM_ATTACK_DASH,
    EFFECT_ATK_SMOKE, EFFECT_DOWN_SMOKE, EFFECT_SPIN_WIND_S, EFFECT_TURN_SMOKE,
    FLAG_ATTACK_DASH_ENABLE_AIR_CONTINUE, FLAG_ATTACK_DASH_ENABLE_AIR_FALL,
    FLAG_ATTACK_ENABLE_100, FLAG_ATTACK_ENABLE_COMBO, SEQ_RND_ATTACK,
};
use crate::timeline::{
    block_threshold, find_script, install_timeline, lemma_register_frame, marker_after, table_wf,
    wf_script, Block, Gate, Timeline, TimelineEntry, TimelineTable,
};

verus! {

// The grounded normal-attack command scripts: the first and second jab and
// the dash attack, each as a flat list of frame-gated blocks. The builders
// return the timelines; `install` registers them under their animation and
// category keys.

/// The first jab's gameplay script: four attack boxes at frame 6, cleared
/// two frames later with the combo window opened, and a trailing frame
/// marker at 14.
pub open spec fn attack_11_script() -> Seq<(Gate, Seq<Action>)> {
    seq![
        (
            Gate::At(6),
            seq![
                Action::SpawnAttack { box_id: 0 },
                Action::SpawnAttack { box_id: 1 },
                Action::SpawnAttack { box_id: 2 },
                Action::SpawnAttack { box_id: 3 },
            ],
        ),
        (
            Gate::After(2),
            seq![Action::ClearAttacks, Action::SetFlag { flag: FLAG_ATTACK_ENABLE_COMBO }],
        ),
        (Gate::At(14), Seq::<Action>::empty()),
    ]
}

/// The second jab's gameplay script: four attack boxes at frame 6, cleared
/// two frames later with the rapid-jab and combo windows opened, and the
/// rapid-jab window closed again at frame 12.
pub open spec fn attack_12_script() -> Seq<(Gate, Seq<Action>)> {
    seq![
        (
            Gate::At(6),
            seq![
                Action::SpawnAttack { box_id: 0 },
                Action::SpawnAttack { box_id: 1 },
                Action::SpawnAttack { box_id: 2 },
                Action::SpawnAttack { box_id: 3 },
            ],
        ),
        (
            Gate::After(2),
            seq![
                Action::ClearAttacks,
                Action::SetFlag { flag: FLAG_ATTACK_ENABLE_100 },
                Action::SetFlag { flag: FLAG_ATTACK_ENABLE_COMBO },
            ],
        ),
        (Gate::At(12), seq![Action::ClearFlag { flag: FLAG_ATTACK_ENABLE_100 }]),
    ]
}

/// The dash attack's gameplay script: the strong early hit with the aerial
/// continuation flags at frame 6, the weak late hit at 11, boxes cleared at
/// 22, the end-lag speed-up with the flags withdrawn at 26, and the motion
/// rate restored nine frames later.
pub open spec fn attack_dash_game_script() -> Seq<(Gate, Seq<Action>)> {
    seq![
        (
            Gate::At(6),
            seq![
                Action::SpawnAttack { box_id: 0 },
                Action::SetFlag { flag: FLAG_ATTACK_DASH_ENABLE_AIR_FALL },
                Action::SetFlag { flag: FLAG_ATTACK_DASH_ENABLE_AIR_CONTINUE },
            ],
        ),
        (Gate::At(11), seq![Action::SpawnAttack { box_id: 0 }]),
        (Gate::At(22), seq![Action::ClearAttacks]),
        (
            Gate::At(26),
            seq![
                Action::MotionRate { percent: 150 },
                Action::ClearFlag { flag: FLAG_ATTACK_DASH_ENABLE_AIR_FALL },
                Action::ClearFlag { flag: FLAG_ATTACK_DASH_ENABLE_AIR_CONTINUE },
            ],
        ),
        (Gate::After(9), seq![Action::MotionRate { percent: 100 }]),
    ]
}

/// The dash attack's visual-effect script: the launch smoke, two wind
/// trails, two dust clouds, and the turnaround smoke, each slowed or sped
/// to its own playback rate.
pub open spec fn attack_dash_effect_script() -> Seq<(Gate, Seq<Action>)> {
    seq![
        (
            Gate::At(2),
            seq![Action::Effect { effect: EFFECT_ATK_SMOKE }, Action::EffectRate { percent: 85 }],
        ),
        (
            Gate::At(5),
            seq![
                Action::Effect { effect: EFFECT_SPIN_WIND_S },
                Action::EffectRate { percent: 160 },
            ],
        ),
        (
            Gate::At(10),
            seq![
                Action::Effect { effect: EFFECT_SPIN_WIND_S },
                Action::EffectRate { percent: 160 },
            ],
        ),
        (
            Gate::At(15),
            seq![
                Action::Effect { effect: EFFECT_DOWN_SMOKE },
                Action::EffectRate { percent: 160 },
            ],
        ),
        (
            Gate::At(20),
            seq![
                Action::Effect { effect: EFFECT_DOWN_SMOKE },
                Action::EffectRate { percent: 160 },
            ],
        ),
        (
            Gate::At(35),
            seq![
                Action::Effect { effect: EFFECT_TURN_SMOKE },
                Action::EffectRate { percent: 160 },
            ],
        ),
    ]
}

/// The dash attack's audio script: the randomized attack voice at frame 5.
pub open spec fn attack_dash_sound_script() -> Seq<(Gate, Seq<Action>)> {
    seq![(Gate::At(5), seq![Action::Sound { sequence: SEQ_RND_ATTACK }])]
}

/// The first jab's gameplay timeline.
pub fn younglink_attack_11_game() -> (tl: Timeline)
    ensures
        tl.script() == attack_11_script(),
        wf_script(tl.script()),
{
    let mut blocks: Vec<Block> = Vec::new();
    blocks.push(
        Block {
            gate: Gate::At(6),
            actions: vec![
                Action::SpawnAttack { box_id: 0 },
                Action::SpawnAttack { box_id: 1 },
                Action::SpawnAttack { box_id: 2 },
                Action::SpawnAttack { box_id: 3 },
            ],
        },
    );
    blocks.push(
        Block {
            gate: Gate::After(2),
            actions: vec![Action::ClearAttacks, Action::SetFlag { flag: FLAG_ATTACK_ENABLE_COMBO }],
        },
    );
    blocks.push(Block { gate: Gate::At(14), actions: Vec::new() });
    let tl = Timeline { blocks };
    proof {
        assert(tl.script() =~~= attack_11_script());
        let sv = tl.script();
        assert(marker_after(sv, 0) == 0);
        assert(marker_after(sv, 1) == 6);
        assert(marker_after(sv, 2) == 8);
        assert(block_threshold(sv, 0) == 6);
        assert(block_threshold(sv, 1) == 8);
        assert(block_threshold(sv, 2) == 14);
    }
    tl
}

/// The second jab's gameplay timeline.
pub fn younglink_attack_12_game() -> (tl: Timeline)
    ensures
        tl.script() == attack_12_script(),
        wf_script(tl.script()),
{
    let mut blocks: Vec<Block> = Vec::new();
    blocks.push(
        Block {
            gate: Gate::At(6),
            actions: vec![
                Action::SpawnAttack { box_id: 0 },
                Action::SpawnAttack { box_id: 1 },
                Action::SpawnAttack { box_id: 2 },
                Action::SpawnAttack { box_id: 3 },
            ],
        },
    );
    blocks.push(
        Block {
            gate: Gate::After(2),
            actions: vec![
                Action::ClearAttacks,
                Action::SetFlag { flag: FLAG_ATTACK_ENABLE_100 },
                Action::SetFlag { flag: FLAG_ATTACK_ENABLE_COMBO },
            ],
        },
    );
    blocks.push(
        Block {
            gate: Gate::At(12),
            actions: vec![Action::ClearFlag { flag: FLAG_ATTACK_ENABLE_100 }],
        },
    );
    let tl = Timeline { blocks };
    proof {
        assert(tl.script() =~~= attack_12_script());
        let sv = tl.script();
        assert(marker_after(sv, 0) == 0);
        assert(marker_after(sv, 1) == 6);
        assert(marker_after(sv, 2) == 8);
        assert(block_threshold(sv, 0) == 6);
        assert(block_threshold(sv, 1) == 8);
        assert(block_threshold(sv, 2) == 12);
    }
    tl
}

/// The dash attack's gameplay timeline.
pub fn younglink_attack_dash_game() -> (tl: Timeline)
    ensures
        tl.script() == attack_dash_game_script(),
        wf_script(tl.script()),
{
    let mut blocks: Vec<Block> = Vec::new();
    blocks.push(
        Block {
            gate: Gate::At(6),
            actions: vec![
                Action::SpawnAttack { box_id: 0 },
                Action::SetFlag { flag: FLAG_ATTACK_DASH_ENABLE_AIR_FALL },
                Action::SetFlag { flag: FLAG_ATTACK_DASH_ENABLE_AIR_CONTINUE },
            ],
        },
    );
    blocks.push(Block { gate: Gate::At(11), actions: vec![Action::SpawnAttack { box_id: 0 }] });
    blocks.push(Block { gate: Gate::At(22), actions: vec![Action::ClearAttacks] });
    blocks.push(
        Block {
            gate: Gate::At(26),
            actions: vec![
                Action::MotionRate { percent: 150 },
                Action::ClearFlag { flag: FLAG_ATTACK_DASH_ENABLE_AIR_FALL },
                Action::ClearFlag { flag: FLAG_ATTACK_DASH_ENABLE_AIR_CONTINUE },
            ],
        },
    );
    blocks.push(
        Block { gate: Gate::After(9), actions: vec![Action::MotionRate { percent: 100 }] },
    );
    let tl = Timeline { blocks };
    proof {
        assert(tl.script() =~~= attack_dash_game_script());
        let sv = tl.script();
        assert(marker_after(sv, 0) == 0);
        assert(marker_after(sv, 1) == 6);
        assert(marker_after(sv, 2) == 11);
        assert(marker_after(sv, 3) == 22);
        assert(marker_after(sv, 4) == 26);
        assert(block_threshold(sv, 0) == 6);
        assert(block_threshold(sv, 1) == 11);
        assert(block_threshold(sv, 2) == 22);
        assert(block_threshold(sv, 3) == 26);
        assert(block_threshold(sv, 4) == 35);
    }
    tl
}

/// The dash attack's visual-effect timeline.
pub fn younglink_attack_dash_effect() -> (tl: Timeline)
    ensures
        tl.script() == attack_dash_effect_script(),
        wf_script(tl.script()),
{
    let mut blocks: Vec<Block> = Vec::new();
    blocks.push(
        Block {
            gate: Gate::At(2),
            actions: vec![
                Action::Effect { effect: EFFECT_ATK_SMOKE },
                Action::EffectRate { percent: 85 },
            ],
        },
    );
    blocks.push(
        Block {
            gate: Gate::At(5),
            actions: vec![
                Action::Effect { effect: EFFECT_SPIN_WIND_S },
                Action::EffectRate { percent: 160 },
            ],
        },
    );
    blocks.push(
        Block {
            gate: Gate::At(10),
            actions: vec![
                Action::Effect { effect: EFFECT_SPIN_WIND_S },
                Action::EffectRate { percent: 160 },
            ],
        },
    );
    blocks.push(
        Block {
            gate: Gate::At(15),
            actions: vec![
                Action::Effect { effect: EFFECT_DOWN_SMOKE },
                Action::EffectRate { percent: 160 },
            ],
        },
    );
    blocks.push(
        Block {
            gate: Gate::At(20),
            actions: vec![
                Action::Effect { effect: EFFECT_DOWN_SMOKE },
                Action::EffectRate { percent: 160 },
            ],
        },
    );
    blocks.push(
        Block {
            gate: Gate::At(35),
            actions: vec![
                Action::Effect { effect: EFFECT_TURN_SMOKE },
                Action::EffectRate { percent: 160 },
            ],
        },
    );
    let tl = Timeline { blocks };
    proof {
        assert(tl.script() =~~= attack_dash_effect_script());
        let sv = tl.script();
        assert(marker_after(sv, 0) == 0);
        assert(marker_after(sv, 1) == 2);
        assert(marker_after(sv, 2) == 5);
        assert(marker_after(sv, 3) == 10);
        assert(marker_after(sv, 4) == 15);
        assert(marker_after(sv, 5) == 20);
        assert(block_threshold(sv, 0) == 2);
        assert(block_threshold(sv, 1) == 5);
        assert(block_threshold(sv, 2) == 10);
        assert(block_threshold(sv, 3) == 15);
        assert(block_threshold(sv, 4) == 20);
        assert(block_threshold(sv, 5) == 35);
    }
    tl
}

/// The dash attack's audio timeline.
pub fn younglink_attack_dash_sound() -> (tl: Timeline)
    ensures
        tl.script() == attack_dash_sound_script(),
        wf_script(tl.script()),
{
    let mut blocks: Vec<Block> = Vec::new();
    blocks.push(
        Block { gate: Gate::At(5), actions: vec![Action::Sound { sequence: SEQ_RND_ATTACK }] },
    );
    let tl = Timeline { blocks };
    proof {
        assert(tl.script() =~~= attack_dash_sound_script());
        let sv = tl.script();
        assert(marker_after(sv, 0) == 0);
        assert(block_threshold(sv, 0) == 5);
    }
    tl
}

/// Build this entity kind's timeline registration table: the five grounded
/// attack scripts, each under its `(animation, category)` key.
pub fn install() -> (r: Result<TimelineTable, ConfigError>)
    ensures
        r matches Ok(t) && {
            &&& table_wf(t.entries@)
            &&& t.entries@.len() == 5
            &&& find_script(t.entries@, ANIM_ATTACK_11, Category::Game) == Some(attack_11_script())
            &&& find_script(t.entries@, ANIM_ATTACK_12, Category::Game) == Some(attack_12_script())
            &&& find_script(t.entries@, ANIM_ATTACK_DASH, Category::Game) == Some(
                attack_dash_game_script(),
            )
            &&& find_script(t.entries@, ANIM_ATTACK_DASH, Category::Effect) == Some(
                attack_dash_effect_script(),
            )
            &&& find_script(t.entries@, ANIM_ATTACK_DASH, Category::Sound) == Some(
                attack_dash_sound_script(),
            )
        },
{
    let mut t = TimelineTable::new();
    let ghost s0 = t.entries@;
    proof {
        assert(find_script(s0, ANIM_ATTACK_11, Category::Game) is None);
        assert(find_script(s0, ANIM_ATTACK_12, Category::Game) is None);
        assert(find_script(s0, ANIM_ATTACK_DASH, Category::Game) is None);
        assert(find_script(s0, ANIM_ATTACK_DASH, Category::Effect) is None);
        assert(find_script(s0, ANIM_ATTACK_DASH, Category::Sound) is None);
        assert(table_wf(s0));
    }
    let tl1 = younglink_attack_11_game();
    let ghost e1 = TimelineEntry { anim: ANIM_ATTACK_11, category: Category::Game, timeline: tl1 };
    if let Err(e) = install_timeline(&mut t, ANIM_ATTACK_11, Category::Game, tl1) {
        return Err(e);
    }
    let ghost s1 = t.entries@;
    proof {
        lemma_register_frame(s0, e1, ANIM_ATTACK_12, Category::Game);
        lemma_register_frame(s0, e1, ANIM_ATTACK_DASH, Category::Game);
        lemma_register_frame(s0, e1, ANIM_ATTACK_DASH, Category::Effect);
        lemma_register_frame(s0, e1, ANIM_ATTACK_DASH, Category::Sound);
    }
    let tl2 = younglink_attack_12_game();
    let ghost e2 = TimelineEntry { anim: ANIM_ATTACK_12, category: Category::Game, timeline: tl2 };
    if let Err(e) = install_timeline(&mut t, ANIM_ATTACK_12, Category::Game, tl2) {
        return Err(e);
    }
    let ghost s2 = t.entries@;
    proof {
        lemma_register_frame(s1, e2, ANIM_ATTACK_11, Category::Game);
        lemma_register_frame(s1, e2, ANIM_ATTACK_DASH, Category::Game);
        lemma_register_frame(s1, e2, ANIM_ATTACK_DASH, Category::Effect);
        lemma_register_frame(s1, e2, ANIM_ATTACK_DASH, Category::Sound);
    }
    let tl3 = younglink_attack_dash_game();
    let ghost e3 = TimelineEntry {
        anim: ANIM_ATTACK_DASH,
        category: Category::Game,
        timeline: tl3,
    };
    if let Err(e) = install_timeline(&mut t, ANIM_ATTACK_DASH, Category::Game, tl3) {
        return Err(e);
    }
    let ghost s3 = t.entries@;
    proof {
        lemma_register_frame(s2, e3, ANIM_ATTACK_11, Category::Game);
        lemma_register_frame(s2, e3, ANIM_ATTACK_12, Category::Game);
        lemma_register_frame(s2, e3, ANIM_ATTACK_DASH, Category::Effect);
        lemma_register_frame(s2, e3, ANIM_ATTACK_DASH, Category::Sound);
    }
    let tl4 = younglink_attack_dash_effect();
    let ghost e4 = TimelineEntry {
        anim: ANIM_ATTACK_DASH,
        category: Category::Effect,
        timeline: tl4,
    };
    if let Err(e) = install_timeline(&mut t, ANIM_ATTACK_DASH, Category::Effect, tl4) {
        return Err(e);
    }
    let ghost s4 = t.entries@;
    proof {
        lemma_register_frame(s3, e4, ANIM_ATTACK_11, Category::Game);
        lemma_register_frame(s3, e4, ANIM_ATTACK_12, Category::Game);
        lemma_register_frame(s3, e4, ANIM_ATTACK_DASH, Category::Game);
        lemma_register_frame(s3, e4, ANIM_ATTACK_DASH, Category::Sound);
    }
    let tl5 = younglink_attack_dash_sound();
    let ghost e5 = TimelineEntry {
        anim: ANIM_ATTACK_DASH,
        category: Category::Sound,
        timeline: tl5,
    };
    if let Err(e) = install_timeline(&mut t, ANIM_ATTACK_DASH, Category::Sound, tl5) {
        return Err(e);
    }
    proof {
        lemma_register_frame(s4, e5, ANIM_ATTACK_11, Category::Game);
        lemma_register_frame(s4, e5, ANIM_ATTACK_12, Category::Game);
        lemma_register_frame(s4, e5, ANIM_ATTACK_DASH, Category::Game);
        lemma_register_frame(s4, e5, ANIM_ATTACK_DASH, Category::Effect);
    }
    Ok(t)
}

} // verus!
