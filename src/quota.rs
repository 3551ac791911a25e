use vstd::prelude::*;

verus! {

/// Remaining calls of each costly service for one identity.
#[derive(Clone, Copy, Debug, PartialEq, Eq, Structural)]
pub struct ServiceQuota {
    pub weather_count: u16,
    pub btc_count: u16,
}

/// Weather lookups granted per identity and refresh cycle.
pub const DEFAULT_WEATHER_COUNT: u16 = 22;

/// Price lookups granted per identity and refresh cycle.
pub const DEFAULT_BTC_COUNT: u16 = 12;

impl Default for ServiceQuota {
    fn default() -> (r: Self)
        ensures
            r.weather_count == DEFAULT_WEATHER_COUNT,
            r.btc_count == DEFAULT_BTC_COUNT,
    {
        ServiceQuota { weather_count: DEFAULT_WEATHER_COUNT, btc_count: DEFAULT_BTC_COUNT }
    }
}

/// The record each subscriber gets on a bulk reset.
pub open spec fn default_quota() -> ServiceQuota {
    ServiceQuota { weather_count: DEFAULT_WEATHER_COUNT, btc_count: DEFAULT_BTC_COUNT }
}

/// The record reported for an identity that holds no entry: nothing left.
pub open spec fn empty_quota() -> ServiceQuota {
    ServiceQuota { weather_count: 0, btc_count: 0 }
}

/// The quota of `id` in `m`, or the empty record when `m` holds none.
pub open spec fn quota_of(m: Map<Seq<char>, ServiceQuota>, id: Seq<char>) -> ServiceQuota {
    if m.contains_key(id) {
        m[id]
    } else {
        empty_quota()
    }
}

/// The mapping after a bulk reset: each of `ids` holds `q`, nothing else is present.
pub open spec fn reset_model(ids: Seq<String>, q: ServiceQuota) -> Map<Seq<char>, ServiceQuota> {
    Map::new(|k: Seq<char>| exists|i: int| 0 <= i < ids.len() && #[trigger] ids[i]@ == k, |k: Seq<char>| q)
}

/// When an update keeps every entry with another key than `key` in its place, and
/// puts `key` at position `i`, each key of the updated mapping has an entry.
proof fn lemma_keys_kept(
    before: Seq<(String, ServiceQuota)>,
    after: Seq<(String, ServiceQuota)>,
    model: Map<Seq<char>, ServiceQuota>,
    updated: Map<Seq<char>, ServiceQuota>,
    key: Seq<char>,
    value: ServiceQuota,
    i: int,
)
    requires
        updated == model.insert(key, value),
        forall|k: Seq<char>|
            #[trigger] model.contains_key(k) ==> exists|j: int| 0 <= j < before.len() && #[trigger] before[j].0@ == k,
        before.len() <= after.len(),
        forall|j: int| 0 <= j < before.len() && before[j].0@ != key ==> (#[trigger] after[j]).0@ == before[j].0@,
        0 <= i < after.len(),
        after[i].0@ == key,
    ensures
        forall|k: Seq<char>|
            #[trigger] updated.contains_key(k) ==> exists|j: int|
                0 <= j < after.len() && #[trigger] after[j].0@ == k,
{
    assert forall|k: Seq<char>| #[trigger] updated.contains_key(k) implies exists|j: int|
        0 <= j < after.len() && #[trigger] after[j].0@ == k by {
        if k != key {
            let j = choose|j: int| 0 <= j < before.len() && #[trigger] before[j].0@ == k;
            assert(after[j].0@ == k);
        } else {
            assert(after[i].0@ == k);
        }
    }
}

/// Per-identity quota records, keyed by identity.
pub struct QuotaTracker {
    entries: Vec<(String, ServiceQuota)>,
    model: Ghost<Map<Seq<char>, ServiceQuota>>,
}

impl View for QuotaTracker {
    type V = Map<Seq<char>, ServiceQuota>;

    closed spec fn view(&self) -> Map<Seq<char>, ServiceQuota> {
        self.model@
    }
}

impl QuotaTracker {
    /// The entries hold each key once, and hold exactly the mapping of the view.
    pub closed spec fn wf(&self) -> bool {
        &&& forall|i: int|
            0 <= i < self.entries.len() ==> {
                &&& self.model@.contains_key(#[trigger] self.entries@[i].0@)
                &&& self.model@[self.entries@[i].0@] == self.entries@[i].1
            }
        &&& forall|k: Seq<char>|
            #[trigger] self.model@.contains_key(k) ==> exists|i: int|
                0 <= i < self.entries.len() && #[trigger] self.entries@[i].0@ == k
        &&& forall|i: int, j: int|
            0 <= i < self.entries.len() && 0 <= j < self.entries.len() && i != j
                ==> #[trigger] self.entries@[i].0@ != #[trigger] self.entries@[j].0@
    }

    /// A tracker with no entries.
    pub fn new() -> (r: QuotaTracker)
        ensures
            r.wf(),
            r@ == Map::<Seq<char>, ServiceQuota>::empty(),
    {
        QuotaTracker { entries: Vec::new(), model: Ghost(Map::empty()) }
    }

    /// Position of the entry for `id`, if there is one.
    fn find(&self, id: &String) -> (r: Option<usize>)
        requires
            self.wf(),
        ensures
            match r {
                Some(i) => i < self.entries.len() && self.entries@[i as int].0@ == id@,
                None => !self@.contains_key(id@),
            },
    {
        let mut i: usize = 0;
        while i < self.entries.len()
            invariant
                self.wf(),
                i <= self.entries.len(),
                forall|j: int| 0 <= j < i ==> (#[trigger] self.entries@[j]).0@ != id@,
            decreases self.entries.len() - i,
        {
            if self.entries[i].0 == *id {
                return Some(i);
            }
            i += 1;
        }
        None
    }

    /// The record stored for `user_id`, or `{0, 0}` when none is stored.
    pub fn get_quota(&self, user_id: &str) -> (r: ServiceQuota)
        requires
            self.wf(),
        ensures
            r == quota_of(self@, user_id@),
    {
        let id = user_id.to_owned();
        match self.find(&id) {
            Some(i) => self.entries[i].1,
            None => ServiceQuota { weather_count: 0, btc_count: 0 },
        }
    }

    /// Stores `user_quota` for `user_id`, replacing any earlier record.
    pub fn set_quota(&mut self, user_id: &str, user_quota: ServiceQuota)
        requires
            old(self).wf(),
        ensures
            final(self).wf(),
            final(self)@ == old(self)@.insert(user_id@, user_quota),
    {
        let id = user_id.to_owned();
        let ghost key = id@;
        match self.find(&id) {
            Some(i) => {
                self.entries.set(i, (id, user_quota));
                self.model = Ghost(self.model@.insert(key, user_quota));
                proof {
                    lemma_keys_kept(old(self).entries@, self.entries@, old(self).model@, self.model@, key, user_quota, i as int);
                }
            },
            None => {
                self.entries.push((id, user_quota));
                self.model = Ghost(self.model@.insert(key, user_quota));
                proof {
                    lemma_keys_kept(
                        old(self).entries@,
                        self.entries@,
                        old(self).model@,
                        self.model@,
                        key,
                        user_quota,
                        self.entries.len() - 1,
                    );
                }
            },
        }
    }

    /// Replaces the whole mapping: afterwards each of `ids` holds `default`, and no
    /// other identity holds a record. The change is made under one exclusive borrow,
    /// so no reader sees a partly reset mapping.
    pub fn reset_all(&mut self, ids: &Vec<String>, default: ServiceQuota)
        requires
            old(self).wf(),
        ensures
            final(self).wf(),
            final(self)@ == reset_model(ids@, default),
    {
        self.entries = Vec::new();
        self.model = Ghost(Map::empty());
        let mut j: usize = 0;
        while j < ids.len()
            invariant
                self.wf(),
                j <= ids.len(),
                self@ == reset_model(ids@.subrange(0, j as int), default),
            decreases ids.len() - j,
        {
            let ghost before = self@;
            self.set_quota(ids[j].as_str(), default);
            assert(self@ =~= reset_model(ids@.subrange(0, j + 1), default)) by {
                let s = ids@.subrange(0, j + 1);
                assert forall|k: Seq<char>| #[trigger] self@.contains_key(k) implies reset_model(s, default).contains_key(k) by {
                    if k == ids@[j as int]@ {
                        assert(s[j as int]@ == k);
                    } else {
                        let i = choose|i: int| 0 <= i < j && #[trigger] ids@.subrange(0, j as int)[i]@ == k;
                        assert(s[i]@ == k);
                    }
                }
                assert forall|k: Seq<char>| #[trigger] reset_model(s, default).contains_key(k) implies self@.contains_key(k) by {
                    let i = choose|i: int| 0 <= i < s.len() && #[trigger] s[i]@ == k;
                    if i < j {
                        assert(ids@.subrange(0, j as int)[i]@ == k);
                    }
                }
            }
            j += 1;
        }
        assert(ids@.subrange(0, ids.len() as int) =~= ids@);
    }

    /// Takes one weather lookup from `user_id` when one is left: returns whether
    /// it did. A count of zero, or an identity without a record, is left as it is.
    pub fn try_consume_weather(&mut self, user_id: &str) -> (r: bool)
        requires
            old(self).wf(),
        ensures
            final(self).wf(),
            r == (quota_of(old(self)@, user_id@).weather_count > 0),
            r ==> final(self)@ == old(self)@.insert(
                user_id@,
                ServiceQuota {
                    weather_count: (quota_of(old(self)@, user_id@).weather_count - 1) as u16,
                    btc_count: quota_of(old(self)@, user_id@).btc_count,
                },
            ),
            !r ==> final(self)@ == old(self)@,
    {
        let q = self.get_quota(user_id);
        if q.weather_count > 0 {
            self.set_quota(user_id, ServiceQuota { weather_count: q.weather_count - 1, btc_count: q.btc_count });
            true
        } else {
            false
        }
    }

    /// Takes one price lookup from `user_id` when one is left: returns whether
    /// it did. A count of zero, or an identity without a record, is left as it is.
    pub fn try_consume_btc(&mut self, user_id: &str) -> (r: bool)
        requires
            old(self).wf(),
        ensures
            final(self).wf(),
            r == (quota_of(old(self)@, user_id@).btc_count > 0),
            r ==> final(self)@ == old(self)@.insert(
                user_id@,
                ServiceQuota {
                    weather_count: quota_of(old(self)@, user_id@).weather_count,
                    btc_count: (quota_of(old(self)@, user_id@).btc_count - 1) as u16,
                },
            ),
            !r ==> final(self)@ == old(self)@,
    {
        let q = self.get_quota(user_id);
        if q.btc_count > 0 {
            self.set_quota(user_id, ServiceQuota { weather_count: q.weather_count, btc_count: q.btc_count - 1 });
            true
        } else {
            false
        }
    }
}

} // verus!
