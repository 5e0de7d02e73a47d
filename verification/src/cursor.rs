use vstd::prelude::*;

verus! {

/// A frame gate with threshold `t` is live on a tick iff elapsed frames have
/// reached `t` on this tick and the previous tick of the same context (if one
/// exists) had not reached it yet. `has_prev` says whether a previous tick
/// exists, `prev` is its elapsed-frame count, `now` is this tick's.
pub open spec fn window_live(has_prev: bool, prev: int, now: int, t: int) -> bool {
    now >= t && (has_prev ==> prev < t)
}

/// The per-context runtime state of one replayed timeline: the elapsed-frame
/// window of the current tick and the threshold most recently declared while
/// replaying the script from the top.
///
/// The host replays the whole script every tick, so firing a block whenever
/// `elapsed >= threshold` would repeat it on every later tick. The cursor
/// instead remembers the elapsed count of the previous tick: a threshold is
/// live exactly when it lies inside the half-open window
/// `(previous elapsed, current elapsed]`, which makes every gate
/// edge-triggered — it reports live on exactly one tick per context lifetime.
pub struct TimelineCursor {
    /// True once a tick has begun since creation or the last reset.
    pub ticked: bool,
    /// True when a completed earlier tick exists in this context.
    pub has_prev: bool,
    /// Elapsed frames at the previous tick; meaningful only when `has_prev`.
    pub prev: u64,
    /// Elapsed frames at the current tick; meaningful only when `ticked`.
    pub now: u64,
    /// The threshold most recently declared during this tick's replay pass.
    pub marker: u64,
}

/// The state of a cursor whose context has just begun: no tick yet, no
/// firing history.
pub open spec fn fresh_cursor() -> TimelineCursor {
    TimelineCursor { ticked: false, has_prev: false, prev: 0, now: 0, marker: 0 }
}

/// Whether the most recently declared gate is live on the current tick.
pub open spec fn gate_live(c: TimelineCursor, t: int) -> bool {
    window_live(c.has_prev, c.prev as int, c.now as int, t)
}

impl TimelineCursor {
    /// A cursor for a timeline context that is about to begin.
    pub fn new() -> (c: Self)
        ensures
            c == fresh_cursor(),
    {
        TimelineCursor { ticked: false, has_prev: false, prev: 0, now: 0, marker: 0 }
    }

    /// Discard all firing history: the animation restarted or looped, or the
    /// owning status ended. Afterwards the cursor is indistinguishable from a
    /// fresh one, so every threshold becomes eligible to fire again.
    pub fn reset(&mut self)
        ensures
            *final(self) == fresh_cursor(),
    {
        self.ticked = false;
        self.has_prev = false;
        self.prev = 0;
        self.now = 0;
        self.marker = 0;
    }

    /// Open a new tick at the host-supplied elapsed-frame count, which is
    /// monotone within one context. The previous tick's count becomes the
    /// exclusive lower bound of the firing window, and the replay marker
    /// returns to frame zero for the new top-to-bottom pass.
    pub fn begin_tick(&mut self, elapsed: u64)
        requires
            old(self).ticked ==> old(self).now <= elapsed,
        ensures
            final(self).ticked,
            final(self).has_prev == old(self).ticked,
            final(self).prev == if old(self).ticked { old(self).now } else { old(self).prev },
            final(self).now == elapsed,
            final(self).marker == 0,
    {
        if self.ticked {
            self.prev = self.now;
            self.has_prev = true;
        } else {
            self.has_prev = false;
        }
        self.now = elapsed;
        self.ticked = true;
        self.marker = 0;
    }

    /// Declare the next gate at an absolute frame threshold. Thresholds are
    /// declared in non-decreasing order as the script replays top to bottom.
    pub fn declare(&mut self, threshold: u64)
        requires
            old(self).ticked,
            old(self).marker <= threshold,
        ensures
            final(self).marker == threshold,
            final(self).ticked == old(self).ticked,
            final(self).has_prev == old(self).has_prev,
            final(self).prev == old(self).prev,
            final(self).now == old(self).now,
    {
        self.marker = threshold;
    }

    /// Declare the next gate a relative number of frames after the previous
    /// one, the script author's "wait" form.
    pub fn declare_wait(&mut self, delta: u64)
        requires
            old(self).ticked,
            old(self).marker + delta <= u64::MAX,
        ensures
            final(self).marker == old(self).marker + delta,
            final(self).ticked == old(self).ticked,
            final(self).has_prev == old(self).has_prev,
            final(self).prev == old(self).prev,
            final(self).now == old(self).now,
    {
        self.marker = self.marker + delta;
    }

    /// Whether the most recently declared gate is crossed on this tick for
    /// the first time in the context's lifetime.
    pub fn is_live(&self) -> (live: bool)
        requires
            self.ticked,
        ensures
            live == gate_live(*self, self.marker as int),
    {
        self.now >= self.marker && (!self.has_prev || self.prev < self.marker)
    }
}

/// The elapsed-frame history of one context: entry `k` is the host's
/// elapsed-frame count on the context's `k`-th tick. Within one context the
/// host never moves it backwards.
pub open spec fn monotone(es: Seq<int>) -> bool {
    forall|i: int, j: int| 0 <= i <= j < es.len() ==> es[i] <= es[j]
}

/// Whether a gate with threshold `t` reports live on tick `k` of the history
/// `es`. This is exactly the window the cursor holds on tick `k`: on the
/// first tick there is no lower bound, afterwards the previous tick's count
/// bounds the window from below.
pub open spec fn live_at(es: Seq<int>, k: int, t: int) -> bool {
    es[k] >= t && (k == 0 || es[k - 1] < t)
}

/// The cursor's window on tick `k` of a history matches `live_at`: the
/// liveness test the executor runs each tick is the per-tick slice of the
/// whole-history firing condition.
pub proof fn lemma_window_matches_history(es: Seq<int>, k: int, t: int)
    requires
        0 <= k < es.len(),
    ensures
        window_live(k != 0, if k == 0 { 0 } else { es[k - 1] }, es[k], t) == live_at(es, k, t),
{
}

/// A fixed threshold fires at most once per context: no two distinct ticks of
/// one monotone elapsed-frame history both report it live.
pub proof fn lemma_gate_fires_at_most_once(es: Seq<int>, t: int, i: int, j: int)
    requires
        monotone(es),
        0 <= i < es.len(),
        0 <= j < es.len(),
        live_at(es, i, t),
        live_at(es, j, t),
    ensures
        i == j,
{
    if i < j {
        assert(es[i] <= es[j - 1]);
    }
    if j < i {
        assert(es[j] <= es[i - 1]);
    }
}

/// A threshold fires exactly on the first tick whose elapsed-frame count
/// reaches it, and on no other tick. Together with
/// [`lemma_gate_fires_at_most_once`] this is the edge-trigger contract: for a
/// fixed context and threshold, liveness holds on exactly one tick — the
/// first tick where `elapsed >= threshold` — among all ticks of the context.
pub proof fn lemma_gate_fires_first_reach(es: Seq<int>, t: int, k: int)
    requires
        monotone(es),
        0 <= k < es.len(),
        es[k] >= t,
        forall|m: int| 0 <= m < k ==> es[m] < t,
    ensures
        live_at(es, k, t),
        forall|m: int| 0 <= m < es.len() && m != k ==> !live_at(es, m, t),
{
    assert forall|m: int| 0 <= m < es.len() && m != k implies !live_at(es, m, t) by {
        if m < k {
            assert(es[m] < t);
        } else {
            assert(es[k] <= es[m - 1]);
        }
    }
}

} // verus!
