use vstd::prelude::*;
use vstd::rwlock::{RwLock, RwLockPredicate};
use std::collections::HashMap;
use std::hash::Hash;
use std::sync::Arc;

verus! {

/// A lock whose contents may be any value of its type.
pub struct Unconstrained;

impl<T> RwLockPredicate<T> for Unconstrained {
    open spec fn inv(self, v: T) -> bool {
        true
    }
}

/// A map shared between threads: clones are handles on the same map, under one lock.
#[derive(Clone)]
pub struct HashmapLock<K, V> {
    hashmap: Arc<RwLock<HashMap<K, V>, Unconstrained>>,
}

impl<K: Eq + Hash, V> HashmapLock<K, V> {
    /// A handle on a new, empty map.
    pub fn new() -> (r: Self) {
        HashmapLock { hashmap: Arc::new(RwLock::new(HashMap::new(), Ghost(Unconstrained))) }
    }

    /// Whether the map holds no entry, as seen under the lock.
    pub fn is_empty(&self) -> bool {
        let handle = self.hashmap.acquire_read();
        let r = handle.borrow().is_empty();
        handle.release_read();
        r
    }

    /// Maps `key` to `value`, under the lock.
    pub fn insert(&self, key: K, value: V) {
        let (mut m, handle) = self.hashmap.acquire_write();
        m.insert(key, value);
        handle.release_write(m);
    }
}

impl<K: Eq + Hash, V: Clone> HashmapLock<K, V> {
    /// A copy of the value of `key`, if the map holds one, as seen under the lock.
    pub fn get(&self, key: &K) -> Option<V> {
        let handle = self.hashmap.acquire_read();
        let r = match handle.borrow().get(key) {
            Some(v) => Some(v.clone()),
            None => None,
        };
        handle.release_read();
        r
    }
}

/// A map shared between threads, for tasks that poll it in a loop.
pub struct HashmapLoop<K, V> {
    rc: Arc<RwLock<HashMap<K, V>, Unconstrained>>,
}

} // verus!
