use vstd::prelude::*;
use crate::action::{Action, Category, ConfigError};
use crate::cursor::{
    lemma_gate_fires_first_reach, lemma_window_matches_history, monotone, window_live,
    TimelineCursor,
};

verus! {

/// How one block of a timeline declares its frame gate: at an absolute frame
/// number, or a number of frames after the previous gate.
#[derive(Clone, Copy, PartialEq, Eq, Structural, Debug)]
pub enum Gate {
    /// Gate at this absolute frame.
    At(u64),
    /// Gate this many frames after the previous gate.
    After(u64),
}

/// One gated block of a timeline: a frame gate followed by the actions that
/// fire when its threshold is crossed. A block with no actions is a plain
/// frame marker.
#[derive(Clone, Debug)]
pub struct Block {
    pub gate: Gate,
    pub actions: Vec<Action>,
}

/// An ordered, flat list of frame-gated action blocks for one animation and
/// one category, replayed in full once per tick.
#[derive(Clone, Debug)]
pub struct Timeline {
    pub blocks: Vec<Block>,
}

impl Timeline {
    /// The mathematical content of the timeline: each block as its gate and
    /// its action sequence.
    pub open spec fn script(self) -> Seq<(Gate, Seq<Action>)> {
        self.blocks@.map_values(|b: Block| (b.gate, b.actions@))
    }
}

/// The absolute frame threshold a gate declares, given the previous gate's
/// threshold `m`.
pub open spec fn gate_threshold(m: int, g: Gate) -> int {
    match g {
        Gate::At(t) => t as int,
        Gate::After(d) => m + d,
    }
}

/// The replay marker after the first `k` blocks of a script: the absolute
/// threshold of block `k - 1`, or frame 0 before any block.
pub open spec fn marker_after(sv: Seq<(Gate, Seq<Action>)>, k: int) -> int
    decreases k,
{
    if k <= 0 {
        0
    } else {
        gate_threshold(marker_after(sv, k - 1), sv[k - 1].0)
    }
}

/// The absolute frame threshold of block `k`.
pub open spec fn block_threshold(sv: Seq<(Gate, Seq<Action>)>, k: int) -> int {
    gate_threshold(marker_after(sv, k), sv[k].0)
}

/// A well-formed script declares its gates in non-decreasing frame order and
/// keeps every threshold within the frame counter's range. Malformed scripts
/// are rejected at installation, before any tick runs.
pub open spec fn wf_script(sv: Seq<(Gate, Seq<Action>)>) -> bool {
    forall|k: int|
        0 <= k < sv.len() ==> marker_after(sv, k) <= #[trigger] block_threshold(sv, k) <= u64::MAX
}

/// The actions the first `k` blocks contribute to one tick whose firing
/// window is `(prev, now]` (`has_prev` false on a context's first tick, which
/// has no lower bound): the concatenation, in block order, of the action
/// lists of the live blocks.
pub open spec fn fires_upto(
    sv: Seq<(Gate, Seq<Action>)>,
    k: int,
    has_prev: bool,
    prev: int,
    now: int,
) -> Seq<Action>
    decreases k,
{
    if k <= 0 {
        Seq::empty()
    } else {
        fires_upto(sv, k - 1, has_prev, prev, now) + if window_live(
            has_prev,
            prev,
            now,
            block_threshold(sv, k - 1),
        ) {
            sv[k - 1].1
        } else {
            Seq::empty()
        }
    }
}

/// On a context's first tick the window has no lower bound, so the `prev`
/// argument does not matter.
pub proof fn lemma_fires_no_prev(sv: Seq<(Gate, Seq<Action>)>, k: int, p1: int, p2: int, n: int)
    ensures
        fires_upto(sv, k, false, p1, n) == fires_upto(sv, k, false, p2, n),
    decreases k,
{
    if k > 0 {
        lemma_fires_no_prev(sv, k - 1, p1, p2, n);
    }
}

/// All actions a script fires on one tick with firing window `(prev, now]`.
pub open spec fn tick_fires(
    sv: Seq<(Gate, Seq<Action>)>,
    has_prev: bool,
    prev: int,
    now: int,
) -> Seq<Action> {
    fires_upto(sv, sv.len() as int, has_prev, prev, now)
}

impl Timeline {
    /// Whether the script is well-formed: gates in non-decreasing frame
    /// order, every threshold within range.
    pub fn check_wf(&self) -> (b: bool)
        ensures
            b == wf_script(self.script()),
    {
        let mut m: u64 = 0;
        let mut i: usize = 0;
        while i < self.blocks.len()
            invariant
                i <= self.blocks.len(),
                m as int == marker_after(self.script(), i as int),
                forall|k: int|
                    0 <= k < i ==> marker_after(self.script(), k) <= #[trigger] block_threshold(
                        self.script(),
                        k,
                    ) <= u64::MAX,
            decreases self.blocks.len() - i,
        {
            match self.blocks[i].gate {
                Gate::At(t) => {
                    if t < m {
                        assert(block_threshold(self.script(), i as int) < marker_after(
                            self.script(),
                            i as int,
                        ));
                        return false;
                    }
                    m = t;
                },
                Gate::After(d) => {
                    if d > u64::MAX - m {
                        assert(block_threshold(self.script(), i as int) > u64::MAX);
                        return false;
                    }
                    m = m + d;
                },
            }
            i = i + 1;
        }
        true
    }

    /// Replay the whole script once for the tick at `elapsed` frames: open
    /// the tick on the cursor, declare each block's gate in order, and gather
    /// the actions of every block whose gate is crossed on this tick, in
    /// declared order. Blocks whose thresholds were skipped over by a frame
    /// drop are caught up in the same pass, still in ascending order, and no
    /// block fires twice in a context's lifetime.
    pub fn run_tick(&self, cur: &mut TimelineCursor, elapsed: u64) -> (fired: Vec<Action>)
        requires
            wf_script(self.script()),
            old(cur).ticked ==> old(cur).now <= elapsed,
        ensures
            fired@ == tick_fires(
                self.script(),
                old(cur).ticked,
                old(cur).now as int,
                elapsed as int,
            ),
            final(cur).ticked,
            final(cur).has_prev == old(cur).ticked,
            final(cur).prev == if old(cur).ticked { old(cur).now } else { old(cur).prev },
            final(cur).now == elapsed,
    {
        cur.begin_tick(elapsed);
        let ghost hp = cur.has_prev;
        let ghost pv = cur.prev as int;
        let mut fired: Vec<Action> = Vec::new();
        let mut i: usize = 0;
        while i < self.blocks.len()
            invariant
                i <= self.blocks.len(),
                wf_script(self.script()),
                cur.ticked,
                cur.has_prev == hp,
                cur.prev as int == pv,
                cur.now == elapsed,
                cur.marker as int == marker_after(self.script(), i as int),
                fired@ == fires_upto(self.script(), i as int, hp, pv, elapsed as int),
            decreases self.blocks.len() - i,
        {
            let b = &self.blocks[i];
            assert(self.script()[i as int] == (b.gate, b.actions@));
            assert(marker_after(self.script(), i as int) <= block_threshold(
                self.script(),
                i as int,
            ) <= u64::MAX);
            match b.gate {
                Gate::At(t) => cur.declare(t),
                Gate::After(d) => cur.declare_wait(d),
            }
            assert(cur.marker as int == block_threshold(self.script(), i as int));
            if cur.is_live() {
                let mut j: usize = 0;
                while j < b.actions.len()
                    invariant
                        j <= b.actions.len(),
                        fired@ == fires_upto(self.script(), i as int, hp, pv, elapsed as int)
                            + b.actions@.take(j as int),
                    decreases b.actions.len() - j,
                {
                    fired.push(b.actions[j]);
                    assert(b.actions@.take(j + 1 as int) =~= b.actions@.take(j as int).push(
                        b.actions@[j as int],
                    ));
                    j = j + 1;
                }
                assert(b.actions@.take(b.actions.len() as int) =~= b.actions@);
            } else {
                assert(fired@ =~= fired@ + Seq::<Action>::empty());
            }
            i = i + 1;
        }
        proof {
            if !old(cur).ticked {
                lemma_fires_no_prev(
                    self.script(),
                    self.script().len() as int,
                    pv,
                    old(cur).now as int,
                    elapsed as int,
                );
            }
        }
        fired
    }
}

/// The registration of one timeline under its lookup key.
#[derive(Clone, Debug)]
pub struct TimelineEntry {
    pub anim: u64,
    pub category: Category,
    pub timeline: Timeline,
}

/// The process-wide timeline registration table, built once at startup and
/// read-only afterwards: at most one timeline per `(animation, category)`
/// key, every registered script well-formed.
#[derive(Clone, Debug)]
pub struct TimelineTable {
    pub entries: Vec<TimelineEntry>,
}

/// The script registered under `(anim, cat)`, if any.
pub open spec fn find_script(
    s: Seq<TimelineEntry>,
    anim: u64,
    cat: Category,
) -> Option<Seq<(Gate, Seq<Action>)>>
    decreases s.len(),
{
    if s.len() == 0 {
        None
    } else if s[0].anim == anim && s[0].category == cat {
        Some(s[0].timeline.script())
    } else {
        find_script(s.drop_first(), anim, cat)
    }
}

/// Every script in the table is well-formed.
pub open spec fn table_wf(s: Seq<TimelineEntry>) -> bool {
    forall|k: int| 0 <= k < s.len() ==> wf_script(s[k].timeline.script())
}

impl TimelineTable {
    /// An empty registration table.
    pub fn new() -> (r: Self)
        ensures
            r.entries@.len() == 0,
    {
        TimelineTable { entries: Vec::new() }
    }

    /// Whether some timeline is registered under `(anim, cat)`.
    pub fn has_key(&self, anim: u64, cat: Category) -> (b: bool)
        ensures
            b == (find_script(self.entries@, anim, cat) is Some),
    {
        let mut i: usize = 0;
        proof {
            assert(self.entries@.skip(0) =~= self.entries@);
        }
        while i < self.entries.len()
            invariant
                i <= self.entries.len(),
                find_script(self.entries@, anim, cat) == find_script(
                    self.entries@.skip(i as int),
                    anim,
                    cat,
                ),
            decreases self.entries.len() - i,
        {
            let e = &self.entries[i];
            assert(self.entries@.skip(i as int)[0] == self.entries@[i as int]);
            assert(self.entries@.skip(i as int).drop_first() =~= self.entries@.skip(i + 1 as int));
            if e.anim == anim && e.category == cat {
                return true;
            }
            i = i + 1;
        }
        assert(self.entries@.skip(self.entries@.len() as int) =~= Seq::<TimelineEntry>::empty());
        false
    }
}

/// Register `timeline` under `(anim, cat)`. Registration happens once at
/// startup; a key that is already taken or a malformed timeline is a fatal
/// configuration error, reported here and never at tick time.
pub fn install_timeline(
    table: &mut TimelineTable,
    anim: u64,
    cat: Category,
    timeline: Timeline,
) -> (r: Result<(), ConfigError>)
    ensures
        match r {
            Ok(()) => {
                &&& find_script(old(table).entries@, anim, cat) is None
                &&& wf_script(timeline.script())
                &&& final(table).entries@ == old(table).entries@.push(
                    TimelineEntry { anim, category: cat, timeline },
                )
            },
            Err(ConfigError::DuplicateKey) => {
                &&& find_script(old(table).entries@, anim, cat) is Some
                &&& final(table).entries@ == old(table).entries@
            },
            Err(ConfigError::MalformedTimeline) => {
                &&& find_script(old(table).entries@, anim, cat) is None
                &&& !wf_script(timeline.script())
                &&& final(table).entries@ == old(table).entries@
            },
        },
{
    if table.has_key(anim, cat) {
        return Err(ConfigError::DuplicateKey);
    }
    if !timeline.check_wf() {
        return Err(ConfigError::MalformedTimeline);
    }
    table.entries.push(TimelineEntry { anim, category: cat, timeline });
    Ok(())
}

/// A registration leaves every other key's script unchanged, keeps the new
/// key's script findable, and preserves table well-formedness.
pub proof fn lemma_register_frame(s: Seq<TimelineEntry>, e: TimelineEntry, anim: u64, cat: Category)
    requires
        find_script(s, e.anim, e.category) is None,
    ensures
        find_script(s.push(e), e.anim, e.category) == Some(e.timeline.script()),
        !(anim == e.anim && cat == e.category) ==> find_script(s.push(e), anim, cat) == find_script(
            s,
            anim,
            cat,
        ),
        table_wf(s) && wf_script(e.timeline.script()) ==> table_wf(s.push(e)),
    decreases s.len(),
{
    if s.len() == 0 {
        assert(s.push(e)[0] == e);
        assert(s.push(e).drop_first() =~= Seq::<TimelineEntry>::empty());
        assert(find_script(Seq::<TimelineEntry>::empty(), anim, cat) is None);
        assert(find_script(Seq::<TimelineEntry>::empty(), e.anim, e.category) is None);
    } else {
        assert(s.push(e)[0] == s[0]);
        assert(s.push(e).drop_first() =~= s.drop_first().push(e));
        lemma_register_frame(s.drop_first(), e, anim, cat);
        if !(anim == e.anim && cat == e.category) {
            if s[0].anim == anim && s[0].category == cat {
                assert(find_script(s.push(e), anim, cat) == Some(s[0].timeline.script()));
                assert(find_script(s, anim, cat) == Some(s[0].timeline.script()));
            } else {
                assert(find_script(s.push(e), anim, cat) == find_script(
                    s.drop_first().push(e),
                    anim,
                    cat,
                ));
                assert(find_script(s, anim, cat) == find_script(s.drop_first(), anim, cat));
            }
        }
    }
    if table_wf(s) && wf_script(e.timeline.script()) {
        assert forall|k: int| 0 <= k < s.push(e).len() implies wf_script(
            #[trigger] s.push(e)[k].timeline.script(),
        ) by {
            if k < s.len() {
                assert(s.push(e)[k] == s[k]);
            }
        }
    }
}

/// Drive the timeline registered under `(anim, cat)`, if any, for the tick
/// at `elapsed` frames, using `ctx` as that timeline's cursor. An absent
/// registration is not an error: the host falls back to its default
/// behavior, and the cursor is left untouched.
pub fn on_tick(
    table: &TimelineTable,
    anim: u64,
    cat: Category,
    ctx: &mut TimelineCursor,
    elapsed: u64,
) -> (fired: Option<Vec<Action>>)
    requires
        table_wf(table.entries@),
        old(ctx).ticked ==> old(ctx).now <= elapsed,
    ensures
        match find_script(table.entries@, anim, cat) {
            None => fired is None && *final(ctx) == *old(ctx),
            Some(sv) => {
                &&& fired matches Some(v) && v@ == tick_fires(
                    sv,
                    old(ctx).ticked,
                    old(ctx).now as int,
                    elapsed as int,
                )
                &&& final(ctx).ticked
                &&& final(ctx).has_prev == old(ctx).ticked
                &&& final(ctx).now == elapsed
                &&& old(ctx).ticked ==> final(ctx).prev == old(ctx).now
            },
        },
{
    let mut i: usize = 0;
    proof {
        assert(table.entries@.skip(0) =~= table.entries@);
    }
    while i < table.entries.len()
        invariant
            i <= table.entries.len(),
            table_wf(table.entries@),
            old(ctx).ticked ==> old(ctx).now <= elapsed,
            *ctx == *old(ctx),
            find_script(table.entries@, anim, cat) == find_script(
                table.entries@.skip(i as int),
                anim,
                cat,
            ),
        decreases table.entries.len() - i,
    {
        let e = &table.entries[i];
        assert(table.entries@.skip(i as int)[0] == table.entries@[i as int]);
        assert(table.entries@.skip(i as int).drop_first() =~= table.entries@.skip(i + 1 as int));
        if e.anim == anim && e.category == cat {
            return Some(e.timeline.run_tick(ctx, elapsed));
        }
        i = i + 1;
    }
    assert(table.entries@.skip(table.entries@.len() as int) =~= Seq::<TimelineEntry>::empty());
    None
}

/// The replay marker never moves backwards over a well-formed script.
pub proof fn lemma_marker_monotone(sv: Seq<(Gate, Seq<Action>)>, i: int, j: int)
    requires
        wf_script(sv),
        0 <= i <= j <= sv.len(),
    ensures
        marker_after(sv, i) <= marker_after(sv, j),
    decreases j - i,
{
    if i < j {
        assert(marker_after(sv, j) == block_threshold(sv, j - 1));
        lemma_marker_monotone(sv, i, j - 1);
    }
}

/// A well-formed script's absolute thresholds are non-decreasing in block
/// order, so actions due on one tick come out in ascending threshold order.
pub proof fn lemma_thresholds_sorted(sv: Seq<(Gate, Seq<Action>)>, i: int, j: int)
    requires
        wf_script(sv),
        0 <= i <= j < sv.len(),
    ensures
        block_threshold(sv, i) <= block_threshold(sv, j),
{
    assert(block_threshold(sv, i) == marker_after(sv, i + 1));
    assert(block_threshold(sv, j) == marker_after(sv, j + 1));
    lemma_marker_monotone(sv, i + 1, j + 1);
}

/// Frame-drop catch-up: if one tick's window jumps from below block `i`'s
/// threshold to at or above block `j`'s, every block from `i` through `j` is
/// live on that tick, so its actions fire — once each, in ascending block
/// order, because `tick_fires` concatenates live blocks' actions in block
/// order and visits each block once.
pub proof fn lemma_frame_drop_catchup(
    sv: Seq<(Gate, Seq<Action>)>,
    has_prev: bool,
    prev: int,
    now: int,
    i: int,
    j: int,
)
    requires
        wf_script(sv),
        0 <= i <= j < sv.len(),
        has_prev ==> prev < block_threshold(sv, i),
        block_threshold(sv, j) <= now,
    ensures
        forall|k: int| i <= k <= j ==> window_live(has_prev, prev, now, block_threshold(sv, k)),
{
    assert forall|k: int| i <= k <= j implies window_live(
        has_prev,
        prev,
        now,
        block_threshold(sv, k),
    ) by {
        lemma_thresholds_sorted(sv, i, k);
        lemma_thresholds_sorted(sv, k, j);
    }
}

/// Exactly-once at the script level: over any monotone elapsed-frame history
/// of one context, a block of a script is live on exactly one tick — the
/// first whose elapsed count reaches the block's threshold — and on no
/// other, so its actions fire exactly once in the context's lifetime.
/// Tick `i`'s firing window is the one `run_tick` holds on the `i`-th tick
/// of the history.
pub proof fn lemma_block_fires_exactly_once(
    sv: Seq<(Gate, Seq<Action>)>,
    es: Seq<int>,
    k: int,
    first: int,
)
    requires
        monotone(es),
        0 <= k < sv.len(),
        0 <= first < es.len(),
        es[first] >= block_threshold(sv, k),
        forall|m: int| 0 <= m < first ==> es[m] < block_threshold(sv, k),
    ensures
        forall|i: int|
            0 <= i < es.len() ==> (window_live(
                i != 0,
                if i == 0 { 0 } else { es[i - 1] },
                #[trigger] es[i],
                block_threshold(sv, k),
            ) <==> i == first),
{
    let t = block_threshold(sv, k);
    lemma_gate_fires_first_reach(es, t, first);
    assert forall|i: int| 0 <= i < es.len() implies (window_live(
        i != 0,
        if i == 0 { 0 } else { es[i - 1] },
        #[trigger] es[i],
        t,
    ) <==> i == first) by {
        lemma_window_matches_history(es, i, t);
    }
}

/// Loop/restart: a context that was reset has no previous tick, so on its
/// next tick every block whose threshold has been reached is live again —
/// all firing history from before the reset is gone.
pub proof fn lemma_restart_reenables(sv: Seq<(Gate, Seq<Action>)>, now: int, k: int)
    requires
        0 <= k < sv.len(),
        block_threshold(sv, k) <= now,
    ensures
        window_live(false, 0, now, block_threshold(sv, k)),
{
}

} // verus!
