use vstd::prelude::*;

verus! {

/// The key-value map a list of `(key, value)` pairs denotes: later pairs
/// override earlier ones.
pub open spec fn map_of<V>(s: Seq<(u64, V)>) -> Map<u64, V>
    decreases s.len(),
{
    if s.len() == 0 {
        Map::empty()
    } else {
        map_of(s.drop_last()).insert(s.last().0, s.last().1)
    }
}

/// An append-only association list over host-assigned `u64` keys; reads
/// return the most recent write. It is the library's model of one entity's
/// working memory: a handful of keys, written by handlers only.
pub struct KvList<V> {
    entries: Vec<(u64, V)>,
}

impl<V: Copy> KvList<V> {
    /// The mapping this list currently denotes.
    pub closed spec fn store(self) -> Map<u64, V> {
        map_of(self.entries@)
    }

    /// An empty store.
    pub fn new() -> (r: Self)
        ensures
            r.store() == Map::<u64, V>::empty(),
    {
        KvList { entries: Vec::new() }
    }

    /// Bind `key` to `value`, shadowing any earlier binding.
    pub fn set(&mut self, key: u64, value: V)
        ensures
            final(self).store() == old(self).store().insert(key, value),
    {
        self.entries.push((key, value));
        proof {
            assert(self.entries@.drop_last() =~= old(self).entries@);
        }
    }

    /// The value bound to `key`, or `default` if no write ever bound it —
    /// keys are lazily defaulted, never pre-declared.
    pub fn get_or(&self, key: u64, default: V) -> (r: V)
        ensures
            r == if self.store().dom().contains(key) {
                self.store()[key]
            } else {
                default
            },
    {
        let mut i: usize = self.entries.len();
        proof {
            assert(self.entries@.take(i as int) =~= self.entries@);
        }
        while i > 0
            invariant
                i <= self.entries.len(),
                map_of(self.entries@).dom().contains(key) == map_of(
                    self.entries@.take(i as int),
                ).dom().contains(key),
                map_of(self.entries@).dom().contains(key) ==> map_of(
                    self.entries@.take(i as int),
                )[key] == map_of(self.entries@)[key],
            decreases i,
        {
            i = i - 1;
            proof {
                assert(self.entries@.take(i + 1 as int).drop_last() =~= self.entries@.take(
                    i as int,
                ));
                assert(self.entries@.take(i + 1 as int).last() == self.entries@[i as int]);
            }
            if self.entries[i].0 == key {
                return self.entries[i].1;
            }
        }
        assert(self.entries@.take(0) =~= Seq::<(u64, V)>::empty());
        default
    }
}

/// One entity's persistent working memory: named integer counters and named
/// flags, surviving across ticks and status changes, mutated only by handler
/// logic, with every key lazily defaulted (integers to 0, flags to off).
pub struct WorkVars {
    int_store: KvList<i32>,
    flag_store: KvList<bool>,
}

impl WorkVars {
    /// The integer counters currently written.
    pub closed spec fn ints(self) -> Map<u64, i32> {
        self.int_store.store()
    }

    /// The flags currently written.
    pub closed spec fn flags(self) -> Map<u64, bool> {
        self.flag_store.store()
    }

    /// The integer counter under `key`, defaulting to 0.
    pub open spec fn int_at(self, key: u64) -> i32 {
        if self.ints().dom().contains(key) {
            self.ints()[key]
        } else {
            0
        }
    }

    /// The flag under `key`, defaulting to off.
    pub open spec fn flag_at(self, key: u64) -> bool {
        if self.flags().dom().contains(key) {
            self.flags()[key]
        } else {
            false
        }
    }

    /// Working memory of a freshly created entity: nothing written yet.
    pub fn new() -> (r: Self)
        ensures
            r.ints() == Map::<u64, i32>::empty(),
            r.flags() == Map::<u64, bool>::empty(),
    {
        WorkVars { int_store: KvList::new(), flag_store: KvList::new() }
    }

    /// Read the integer counter under `key`.
    pub fn get_int(&self, key: u64) -> (r: i32)
        ensures
            r == self.int_at(key),
    {
        self.int_store.get_or(key, 0)
    }

    /// Write the integer counter under `key`.
    pub fn set_int(&mut self, key: u64, value: i32)
        ensures
            final(self).ints() == old(self).ints().insert(key, value),
            final(self).flags() == old(self).flags(),
    {
        self.int_store.set(key, value);
    }

    /// Read the flag under `key`.
    pub fn is_flag(&self, key: u64) -> (r: bool)
        ensures
            r == self.flag_at(key),
    {
        self.flag_store.get_or(key, false)
    }

    /// Turn the flag under `key` on.
    pub fn on_flag(&mut self, key: u64)
        ensures
            final(self).flags() == old(self).flags().insert(key, true),
            final(self).ints() == old(self).ints(),
    {
        self.flag_store.set(key, true);
    }

    /// Turn the flag under `key` off.
    pub fn off_flag(&mut self, key: u64)
        ensures
            final(self).flags() == old(self).flags().insert(key, false),
            final(self).ints() == old(self).ints(),
    {
        self.flag_store.set(key, false);
    }
}

} // verus!
