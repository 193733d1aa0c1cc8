//! State types for the view.

use vstd::prelude::*;
use vstd::std_specs::cmp::PartialEqSpec;

verus! {

/// A cell for state that is derived from something else. Beside the value
/// it holds the key that the value was made for, and the value is made anew
/// when it is asked for under another key. The key should be cheap to
/// compare.
#[derive(Debug)]
pub struct StateCell<K, V> {
    state: Option<(K, V)>,
}

impl<K, V> StateCell<K, V> {
    /// Whether the cell holds a key and a value.
    pub closed spec fn is_set(&self) -> bool {
        self.state is Some
    }

    /// The key in a cell that holds one.
    pub closed spec fn key(&self) -> K {
        self.state->Some_0.0
    }

    /// The value in a cell that holds one.
    pub closed spec fn value(&self) -> V {
        self.state->Some_0.1
    }

    /// Two cells are alike when both are empty, or both hold the same key
    /// and value.
    pub open spec fn like(&self, other: &Self) -> bool {
        if self.is_set() {
            other.is_set() && self.key() == other.key() && self.value() == other.value()
        } else {
            !other.is_set()
        }
    }

    /// An empty cell.
    pub fn new() -> (cell: Self)
        ensures
            !cell.is_set(),
    {
        StateCell { state: None }
    }

    /// The value in the cell, where the cell holds one under a key that
    /// `key` equals. Otherwise a new value is made by `init` and put into
    /// the cell, under a clone of `key`, and that value is returned. `init`
    /// is called only then, and the key is cloned only then.
    pub fn get_or_update<F: FnOnce() -> V>(&mut self, key: &K, init: F) -> (value: &V) where
        K: Clone + PartialEq,

        requires
            call_requires(init, ()),
        ensures
            final(self).is_set(),
            *value == final(self).value(),
            final(self).like(old(self)) || {
                &&& cloned(*key, final(self).key())
                &&& call_ensures(init, (), final(self).value())
            },
            K::obeys_eq_spec() ==> if old(self).is_set() && old(self).key().eq_spec(key) {
                final(self).like(old(self))
            } else {
                &&& cloned(*key, final(self).key())
                &&& call_ensures(init, (), final(self).value())
            },
    {
        let fresh = match &self.state {
            Some(state) => !(state.0 == *key),
            None => true,
        };
        if fresh {
            self.state = Some((key.clone(), init()));
        }
        match &self.state {
            Some(state) => &state.1,
            None => vstd::pervasive::unreached(),
        }
    }

    /// The key in the cell; none exactly when the cell is empty.
    pub fn get_key(&self) -> (key: Option<&K>)
        ensures
            match key {
                Some(key) => self.is_set() && *key == self.key(),
                None => !self.is_set(),
            },
    {
        match &self.state {
            Some(state) => Some(&state.0),
            None => None,
        }
    }

    /// The value in the cell; none exactly when the cell is empty.
    pub fn get(&self) -> (value: Option<&V>)
        ensures
            match value {
                Some(value) => self.is_set() && *value == self.value(),
                None => !self.is_set(),
            },
    {
        match &self.state {
            Some(state) => Some(&state.1),
            None => None,
        }
    }

    /// The value in the cell, to be changed in place; none exactly when the
    /// cell is empty. The key stays as it is.
    pub fn get_mut(&mut self) -> (value: Option<&mut V>)
        ensures
            match value {
                Some(value) => {
                    &&& old(self).is_set()
                    &&& *value == old(self).value()
                    &&& final(self).is_set()
                    &&& final(self).key() == old(self).key()
                    &&& final(self).value() == *final(value)
                },
                None => !old(self).is_set() && !final(self).is_set(),
            },
    {
        match &mut self.state {
            Some(state) => Some(&mut state.1),
            None => None,
        }
    }
}

impl<K, V> Default for StateCell<K, V> {
    fn default() -> (cell: Self)
        ensures
            !cell.is_set(),
    {
        StateCell { state: None }
    }
}


/// `chrono::Utc::now`, as microseconds since the Unix epoch. The clock
/// decides, so nothing is claimed of the result.
#[verifier::external_body]
fn now() -> (timestamp: i64) {
    chrono::Utc::now().timestamp_micros()
}

/// A short message about something that happened in the background. It is
/// shown for a while and then goes away by itself.
#[derive(Debug)]
pub struct Notification {
    pub message: String,
    /// When the notification was made, in microseconds since the Unix
    /// epoch.
    pub timestamp: i64,
}

impl Notification {
    /// A notification made at the given time.
    pub fn at(message: String, timestamp: i64) -> (notification: Self)
        ensures
            notification.message == message,
            notification.timestamp == timestamp,
    {
        Notification { message, timestamp }
    }

    /// A notification made now.
    pub fn new(message: String) -> (notification: Self)
        ensures
            notification.message == message,
    {
        Notification::at(message, now())
    }
}

} // verus!
