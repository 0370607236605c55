//! Display settings kept by position key: an ordered store with at most one
//! entry per key, and the bounded cache of disconnected displays built on it.
use vstd::prelude::*;
use crate::display_config::DisplayConfig;

verus! {

/// No two entries share a position key.
pub open spec fn keys_unique(s: Seq<DisplayConfig>) -> bool {
    forall|i: int, j: int|
        0 <= i < j < s.len() ==> #[trigger] s[i].position_key@ != #[trigger] s[j].position_key@
}

/// Some entry has position key `k`.
pub open spec fn has_key(s: Seq<DisplayConfig>, k: Seq<char>) -> bool {
    exists|i: int| 0 <= i < s.len() && #[trigger] s[i].position_key@ == k
}

/// The predicate "the position key differs from `k`".
pub open spec fn key_differs(k: Seq<char>) -> spec_fn(DisplayConfig) -> bool {
    |c: DisplayConfig| c.position_key@ != k
}

/// The entries whose position key is not `k`, in their order.
pub open spec fn without_key(s: Seq<DisplayConfig>, k: Seq<char>) -> Seq<DisplayConfig> {
    s.filter(key_differs(k))
}

/// The entry with position key `k`, if there is one.
pub open spec fn find_key(s: Seq<DisplayConfig>, k: Seq<char>) -> Option<DisplayConfig> {
    if has_key(s, k) {
        Some(s[choose|i: int| 0 <= i < s.len() && #[trigger] s[i].position_key@ == k])
    } else {
        None
    }
}

/// The entries after `c` is stored: any entry with its key leaves, and `c`
/// becomes the newest entry.
pub open spec fn stored(s: Seq<DisplayConfig>, c: DisplayConfig) -> Seq<DisplayConfig> {
    without_key(s, c.position_key@).push(c)
}

/// Filtering out a key keeps keys unique, keeps only entries of `s` whose key
/// differs, and keeps all of those.
pub proof fn lemma_without_key(s: Seq<DisplayConfig>, k: Seq<char>)
    requires
        keys_unique(s),
    ensures
        keys_unique(without_key(s, k)),
        forall|c: DisplayConfig| #[trigger]
            without_key(s, k).contains(c) ==> s.contains(c) && c.position_key@ != k,
        forall|i: int|
            0 <= i < s.len() && s[i].position_key@ != k ==> #[trigger] without_key(s, k).contains(
                s[i],
            ),
        !has_key(without_key(s, k), k),
    decreases s.len(),
{
    reveal(Seq::filter);
    let w = without_key(s, k);
    if s.len() == 0 {
        assert(w =~= s);
    } else {
        let d = s.drop_last();
        assert(keys_unique(d)) by {
            assert forall|i: int, j: int| 0 <= i < j < d.len() implies #[trigger] d[i].position_key@
                != #[trigger] d[j].position_key@ by {
                assert(d[i] == s[i] && d[j] == s[j]);
            }
        }
        lemma_without_key(d, k);
        let wd = without_key(d, k);
        let last = s.last();
        assert(w == if key_differs(k)(last) {
            wd.push(last)
        } else {
            wd
        });
        assert forall|c: DisplayConfig| #[trigger] w.contains(c) implies s.contains(c)
            && c.position_key@ != k by {
            if wd.contains(c) {
                let t = choose|t: int| 0 <= t < d.len() && d[t] == c;
                assert(s[t] == c);
            } else {
                assert(c == last);
                assert(s[s.len() - 1] == c);
            }
        }
        assert forall|i: int| 0 <= i < s.len() && s[i].position_key@ != k implies #[trigger] w.contains(
            s[i],
        ) by {
            if i < s.len() - 1 {
                assert(d[i] == s[i]);
                assert(wd.contains(d[i]));
                let t = choose|t: int| 0 <= t < wd.len() && wd[t] == d[i];
                assert(w[t] == s[i]);
            } else {
                assert(w[w.len() - 1] == s[i]);
            }
        }
        if key_differs(k)(last) {
            assert forall|i: int, j: int| 0 <= i < j < w.len() implies #[trigger] w[i].position_key@
                != #[trigger] w[j].position_key@ by {
                if j == w.len() - 1 {
                    assert(wd.contains(w[i]));
                    let t = choose|t: int| 0 <= t < d.len() && d[t] == w[i];
                    assert(s[t] == w[i]);
                    assert(w[j] == s[s.len() - 1]);
                } else {
                    assert(w[i] == wd[i] && w[j] == wd[j]);
                }
            }
        }
        assert forall|i: int| 0 <= i < w.len() implies #[trigger] w[i].position_key@ != k by {
            assert(w.contains(w[i]));
        }
    }
}

/// Storing keeps keys unique.
pub proof fn lemma_stored_unique(s: Seq<DisplayConfig>, c: DisplayConfig)
    requires
        keys_unique(s),
    ensures
        keys_unique(stored(s, c)),
{
    lemma_without_key(s, c.position_key@);
    let w = without_key(s, c.position_key@);
    let t = stored(s, c);
    assert forall|i: int, j: int| 0 <= i < j < t.len() implies #[trigger] t[i].position_key@
        != #[trigger] t[j].position_key@ by {
        if j == t.len() - 1 {
            assert(t[i] == w[i]);
            assert(w.contains(w[i]));
        } else {
            assert(t[i] == w[i] && t[j] == w[j]);
        }
    }
}

/// Looking up a key after `c` is stored finds `c` for its own key and what
/// was found before for any other key.
pub proof fn lemma_find_stored(s: Seq<DisplayConfig>, c: DisplayConfig, k: Seq<char>)
    requires
        keys_unique(s),
    ensures
        find_key(stored(s, c), k) == if k == c.position_key@ {
            Some(c)
        } else {
            find_key(s, k)
        },
{
    lemma_without_key(s, c.position_key@);
    let w = without_key(s, c.position_key@);
    let t = stored(s, c);
    if k == c.position_key@ {
        assert(t[t.len() - 1] == c);
        assert(has_key(t, k));
        let i = choose|i: int| 0 <= i < t.len() && #[trigger] t[i].position_key@ == k;
        if i < t.len() - 1 {
            assert(t[i] == w[i]);
            assert(w.contains(w[i]));
        }
    } else {
        if has_key(s, k) {
            let a = choose|a: int| 0 <= a < s.len() && #[trigger] s[a].position_key@ == k;
            assert(w.contains(s[a]));
            let b = choose|b: int| 0 <= b < w.len() && #[trigger] w[b] == s[a];
            assert(t[b] == s[a]);
            assert(has_key(t, k));
            let i = choose|i: int| 0 <= i < t.len() && #[trigger] t[i].position_key@ == k;
            assert(i < t.len() - 1);
            assert(t[i] == w[i]);
            assert(w.contains(w[i]));
            let e = choose|e: int| 0 <= e < s.len() && #[trigger] s[e] == w[i];
            assert(s[e].position_key@ == k);
            assert(e == a);
        } else {
            if has_key(t, k) {
                let i = choose|i: int| 0 <= i < t.len() && #[trigger] t[i].position_key@ == k;
                assert(t[i] == w[i]);
                assert(w.contains(w[i]));
                let e = choose|e: int| 0 <= e < s.len() && #[trigger] s[e] == w[i];
                assert(s[e].position_key@ == k);
            }
        }
    }
}

/// Settings of displays kept by position key, oldest first, with at most one
/// entry per key.
pub struct ConfigStore {
    entries: Vec<DisplayConfig>,
}

impl View for ConfigStore {
    type V = Seq<DisplayConfig>;

    closed spec fn view(&self) -> Seq<DisplayConfig> {
        self.entries@
    }
}

impl Clone for ConfigStore {
    fn clone(&self) -> (r: Self)
        ensures
            r@ == self@,
            keys_unique(r@),
    {
        proof {
            use_type_invariant(self);
        }
        let mut entries: Vec<DisplayConfig> = Vec::new();
        let mut i: usize = 0;
        while i < self.entries.len()
            invariant
                i <= self.entries@.len(),
                entries@ == self.entries@.take(i as int),
            decreases self.entries@.len() - i,
        {
            entries.push(self.entries[i].clone());
            i = i + 1;
            assert(entries@ =~= self.entries@.take(i as int));
        }
        assert(entries@ =~= self.entries@);
        ConfigStore { entries }
    }
}

impl ConfigStore {
    #[verifier::type_invariant]
    spec fn inv(self) -> bool {
        keys_unique(self.entries@)
    }

    /// An empty store.
    pub fn new() -> (s: Self)
        ensures
            s@ == Seq::<DisplayConfig>::empty(),
    {
        ConfigStore { entries: Vec::new() }
    }

    /// Number of entries.
    pub fn len(&self) -> (n: usize)
        ensures
            n == self@.len(),
    {
        self.entries.len()
    }

    /// The entries, oldest first.
    pub fn entries(&self) -> (v: &Vec<DisplayConfig>)
        ensures
            v@ == self@,
    {
        &self.entries
    }

    /// Position of the entry with key `key`, if any.
    fn position(&self, key: &String) -> (r: Option<usize>)
        ensures
            match r {
                Some(i) => i < self@.len() && self@[i as int].position_key@ == key@,
                None => !has_key(self@, key@),
            },
    {
        let mut i: usize = 0;
        while i < self.entries.len()
            invariant
                i <= self.entries@.len(),
                forall|t: int| 0 <= t < i ==> #[trigger] self.entries@[t].position_key@ != key@,
            decreases self.entries@.len() - i,
        {
            if self.entries[i].position_key == *key {
                return Some(i);
            }
            i = i + 1;
        }
        None
    }

    /// A copy of the entry with key `key`, if any.
    pub fn get(&self, key: &str) -> (r: Option<DisplayConfig>)
        ensures
            r == find_key(self@, key@),
    {
        proof {
            use_type_invariant(self);
        }
        let k = key.to_owned();
        match self.position(&k) {
            Some(i) => {
                let c = self.entries[i].clone();
                proof {
                    let j = choose|j: int|
                        0 <= j < self@.len() && #[trigger] self@[j].position_key@ == key@;
                    assert(j == i as int);
                }
                Some(c)
            },
            None => None,
        }
    }

    /// The entries without key `k`, and the entry with that key if any.
    fn split_out(&self, k: &String) -> (r: (Vec<DisplayConfig>, Option<DisplayConfig>))
        ensures
            r.0@ == without_key(self@, k@),
            r.1 == find_key(self@, k@),
    {
        proof {
            use_type_invariant(self);
        }
        let ghost s = self.entries@;
        let mut kept: Vec<DisplayConfig> = Vec::new();
        let mut found: Option<DisplayConfig> = None;
        let ghost mut at: int = 0;
        let mut i: usize = 0;
        while i < self.entries.len()
            invariant
                s == self.entries@,
                keys_unique(s),
                i <= s.len(),
                kept@ == s.take(i as int).filter(key_differs(k@)),
                match found {
                    Some(c) => 0 <= at < i && s[at] == c && c.position_key@ == k@,
                    None => forall|t: int| 0 <= t < i ==> #[trigger] s[t].position_key@ != k@,
                },
            decreases s.len() - i,
        {
            let c = self.entries[i].clone();
            proof {
                assert(s.take(i + 1) =~= s.take(i as int).push(s[i as int]));
                s.take(i as int).lemma_filter_push(s[i as int], key_differs(k@));
            }
            if c.position_key == *k {
                proof {
                    at = i as int;
                }
                found = Some(c);
            } else {
                kept.push(c);
            }
            i = i + 1;
        }
        proof {
            assert(s.take(s.len() as int) =~= s);
            if found is Some {
                let j = choose|j: int| 0 <= j < s.len() && #[trigger] s[j].position_key@ == k@;
                assert(s[at].position_key@ == k@);
                assert(j == at);
            }
        }
        (kept, found)
    }

    /// Stores `config` as the newest entry, in place of any entry with its key.
    pub fn insert(&mut self, config: DisplayConfig)
        ensures
            final(self)@ == stored(old(self)@, config),
            keys_unique(final(self)@),
    {
        proof {
            use_type_invariant(&*self);
            lemma_without_key(self@, config.position_key@);
        }
        let k = config.position_key.clone();
        let (mut kept, _) = self.split_out(&k);
        kept.push(config);
        proof {
            let w = without_key(old(self)@, k@);
            assert forall|i: int, j: int| 0 <= i < j < kept@.len() implies #[trigger] kept@[i].position_key@
                != #[trigger] kept@[j].position_key@ by {
                if j == kept@.len() - 1 {
                    assert(kept@[i] == w[i]);
                    assert(w.contains(w[i]));
                } else {
                    assert(kept@[i] == w[i] && kept@[j] == w[j]);
                }
            }
        }
        self.entries = kept;
    }

    /// Takes out the entry with key `key`, if any.
    pub fn remove(&mut self, key: &str) -> (r: Option<DisplayConfig>)
        ensures
            r == find_key(old(self)@, key@),
            final(self)@ == without_key(old(self)@, key@),
            keys_unique(final(self)@),
    {
        proof {
            use_type_invariant(&*self);
            lemma_without_key(self@, key@);
        }
        let k = key.to_owned();
        let (kept, found) = self.split_out(&k);
        self.entries = kept;
        found
    }

    /// Takes out the oldest entry, if any.
    pub fn remove_oldest(&mut self) -> (r: Option<DisplayConfig>)
        ensures
            old(self)@.len() == 0 ==> r is None && final(self)@ == old(self)@,
            old(self)@.len() > 0 ==> r == Some(old(self)@[0]) && final(self)@ == old(self)@.subrange(
                1,
                old(self)@.len() as int,
            ),
    {
        proof {
            use_type_invariant(&*self);
        }
        let mut all: Vec<DisplayConfig> = Vec::new();
        std::mem::swap(&mut all, &mut self.entries);
        if all.len() == 0 {
            self.entries = all;
            None
        } else {
            let rest = all.split_off(1);
            proof {
                assert(keys_unique(rest@)) by {
                    assert forall|i: int, j: int| 0 <= i < j < rest@.len() implies #[trigger] rest@[i].position_key@
                        != #[trigger] rest@[j].position_key@ by {
                        assert(rest@[i] == old(self)@[i + 1] && rest@[j] == old(self)@[j + 1]);
                    }
                }
            }
            self.entries = rest;
            all.pop()
        }
    }
}

/// Most entries a disconnected-display cache keeps.
pub const MAX_DISCONNECTED: usize = 8;

/// The entries of a cache after `c` is stored: `c` takes the place of any
/// entry with its key and becomes the newest; beyond the limit the oldest
/// entry leaves.
pub open spec fn cache_after_store(s: Seq<DisplayConfig>, c: DisplayConfig) -> Seq<DisplayConfig> {
    let t = stored(s, c);
    if t.len() > MAX_DISCONNECTED {
        t.subrange(1, t.len() as int)
    } else {
        t
    }
}

/// Settings of disconnected displays, found again by position key when a
/// display is reconnected; at most `MAX_DISCONNECTED` of them, the oldest
/// leaving first.
pub struct DisconnectedCache {
    cache: ConfigStore,
}

impl View for DisconnectedCache {
    type V = Seq<DisplayConfig>;

    closed spec fn view(&self) -> Seq<DisplayConfig> {
        self.cache@
    }
}

impl DisconnectedCache {
    #[verifier::type_invariant]
    spec fn inv(self) -> bool {
        self.cache@.len() <= MAX_DISCONNECTED
    }

    /// An empty cache.
    pub fn new() -> (c: Self)
        ensures
            c@ == Seq::<DisplayConfig>::empty(),
    {
        DisconnectedCache { cache: ConfigStore::new() }
    }

    /// Keeps the settings of a display that was disconnected.
    pub fn store(&mut self, config: DisplayConfig)
        ensures
            final(self)@ == cache_after_store(old(self)@, config),
            keys_unique(final(self)@),
            final(self)@.len() <= MAX_DISCONNECTED,
    {
        proof {
            use_type_invariant(&*self);
            use_type_invariant(&self.cache);
            lemma_without_key(self.cache@, config.position_key@);
            let w = without_key(self.cache@, config.position_key@);
            self.cache@.lemma_filter_len(key_differs(config.position_key@));
        }
        let mut cache = ConfigStore::new();
        std::mem::swap(&mut cache, &mut self.cache);
        cache.insert(config);
        if cache.len() > MAX_DISCONNECTED {
            let _ = cache.remove_oldest();
        }
        self.cache = cache;
    }

    /// Takes out the settings stored under `key`, if any.
    pub fn restore(&mut self, key: &str) -> (r: Option<DisplayConfig>)
        ensures
            r == find_key(old(self)@, key@),
            final(self)@ == without_key(old(self)@, key@),
            keys_unique(final(self)@),
            final(self)@.len() <= MAX_DISCONNECTED,
    {
        proof {
            use_type_invariant(&*self);
            use_type_invariant(&self.cache);
            self.cache@.lemma_filter_len(key_differs(key@));
        }
        let mut cache = ConfigStore::new();
        std::mem::swap(&mut cache, &mut self.cache);
        let r = cache.remove(key);
        self.cache = cache;
        r
    }

    /// Number of entries.
    pub fn len(&self) -> (n: usize)
        ensures
            n == self@.len(),
    {
        self.cache.len()
    }
}

} // verus!
