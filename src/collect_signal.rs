use vstd::prelude::*;
use vstd::rwlock::RwLock;
use std::collections::{HashMap, VecDeque};
use std::hash::Hash;
use std::sync::Arc;
use crate::shared::Unconstrained;

verus! {

/// A queue of commands and a keyed collection, shared between threads: clones are handles
/// on the same queue and the same collection, each under its own lock. Other handles may
/// act between two calls, so a call promises only what it does under the lock.
#[derive(Clone)]
pub struct CollectSignal<S, K, V> {
    command_queue: Arc<RwLock<VecDeque<S>, Unconstrained>>,
    collection: Arc<RwLock<HashMap<K, V>, Unconstrained>>,
}

impl<S, K: Clone + Eq + Hash, V: Clone + Eq + Hash> CollectSignal<S, K, V> {
    /// Handles on a new, empty queue and collection.
    pub fn new() -> Self {
        CollectSignal {
            command_queue: Arc::new(RwLock::new(VecDeque::new(), Ghost(Unconstrained))),
            collection: Arc::new(RwLock::new(HashMap::new(), Ghost(Unconstrained))),
        }
    }

    /// Appends a command at the back of the queue.
    pub fn insert_command(&mut self, command: S) {
        let (mut q, handle) = self.command_queue.acquire_write();
        q.push_back(command);
        handle.release_write(q);
    }

    /// Takes the command at the front of the queue, if there is one.
    pub fn extract_command(&mut self) -> Option<S> {
        let (mut q, handle) = self.command_queue.acquire_write();
        let r = q.pop_front();
        handle.release_write(q);
        r
    }

    /// Maps `key` to `value` in the collection.
    pub fn insert_collection(&mut self, key: K, value: V) {
        let (mut m, handle) = self.collection.acquire_write();
        m.insert(key, value);
        handle.release_write(m);
    }

    /// A copy of the value of `key` in the collection, if there is one.
    pub fn search_entry(&mut self, key: K) -> Option<V> {
        let handle = self.collection.acquire_read();
        let r = match handle.borrow().get(&key) {
            Some(v) => Some(v.clone()),
            None => None,
        };
        handle.release_read();
        r
    }
}

} // verus!
