use vstd::prelude::*;

verus! {

/// One computed value together with the key (a hash of its inputs) it was computed
/// for; it is computed again whenever it is asked for under another key or after it
/// has been cleared.
pub struct KeyedCache<T> {
    key: u64,
    value: Option<T>,
}

impl<T> View for KeyedCache<T> {
    type V = (u64, Option<T>);

    closed spec fn view(&self) -> (u64, Option<T>) {
        (self.key, self.value)
    }
}

/// A cache holding a value computed for `key` is up to date for that key.
pub open spec fn fresh_for<T>(c: (u64, Option<T>), key: u64) -> bool {
    c.1 is Some && c.0 == key
}

/// A cached value is up to date for exactly the key it was stored under: any other key,
/// however close, finds it stale, and an empty cache is stale for every key.
pub proof fn lemma_fresh_only_for_own_key<T>(c: (u64, Option<T>), k: u64)
    ensures
        fresh_for(c, k) <==> (c.1 is Some && c.0 == k),
        c.0 != k ==> !fresh_for(c, k),
        c.1 is None ==> !fresh_for(c, k),
{
}

impl<T> KeyedCache<T> {
    /// An empty cache.
    pub fn new() -> (c: KeyedCache<T>)
        ensures
            c@.1 is None,
    {
        KeyedCache { key: 0, value: None }
    }

    /// Makes the cache hold the value for `key`: when it already holds one for that key
    /// nothing happens; otherwise `compute` is called once and its result is kept under
    /// `key`. (`compute` need only be callable when the cache is stale.)
    pub fn refresh<F: FnOnce() -> T>(&mut self, key: u64, compute: F)
        requires
            !fresh_for(old(self)@, key) ==> compute.requires(()),
        ensures
            fresh_for(old(self)@, key) ==> final(self)@ == old(self)@,
            !fresh_for(old(self)@, key) ==> exists|v: T| #[trigger]
                compute.ensures((), v) && final(self)@ == (key, Some(v)),
            fresh_for(final(self)@, key),
            final(self)@.0 == key,
            final(self)@.1 is Some,
            old(self)@.0 != key ==> exists|v: T| #[trigger]
                compute.ensures((), v) && final(self)@ == (key, Some(v)),
            old(self)@.1 is None ==> exists|v: T| #[trigger]
                compute.ensures((), v) && final(self)@ == (key, Some(v)),
            old(self)@.0 == key && old(self)@.1 is Some ==> final(self)@ == old(self)@,
    {
        let stale = match &self.value {
            Some(_) => self.key != key,
            None => true,
        };
        if stale {
            let v = compute();
            self.value = Some(v);
            self.key = key;
        }
    }

    /// Forgets the cached value, so that the next refresh computes it again.
    pub fn clear(&mut self)
        ensures
            final(self)@.1 is None,
            final(self)@.0 == old(self)@.0,
    {
        self.value = None;
    }

    /// The cached value, if there is one.
    pub fn get(&self) -> (v: Option<&T>)
        ensures
            match v {
                Some(x) => self@.1 == Some(*x),
                None => self@.1 is None,
            },
    {
        match &self.value {
            Some(x) => Some(x),
            None => None,
        }
    }
}

} // verus!
