//! A stored value together with the instant at which it expires.

use crate::clock::{clock_now, instant_is_later, is_later};
use std::ops::Deref;
use std::time::Instant;
use vstd::prelude::*;

verus! {

/// A value and its absolute expiration instant.
///
/// The entry is live as long as the clock has not passed `expiration`; at the
/// expiration instant itself it is still live.
#[derive(Debug, PartialEq, Eq)]
pub struct Data<T> {
    pub object: T,
    pub expiration: Instant,
}

impl<T> Data<T> {
    /// Whether the entry counts as expired when the clock reads `now`:
    /// exactly when `now` lies strictly after the expiration instant.
    pub open spec fn expired_at(&self, now: Instant) -> bool {
        instant_is_later(now, self.expiration)
    }

    /// Pairs a value with its expiration instant.
    pub fn new(object: T, expiration: Instant) -> (entry: Self)
        ensures
            entry.object == object,
            entry.expiration == expiration,
    {
        Data { object, expiration }
    }

    /// Whether the entry is expired when the clock reads `now`.
    pub fn is_expired_at(&self, now: Instant) -> (expired: bool)
        ensures
            expired == self.expired_at(now),
    {
        is_later(now, self.expiration)
    }

    /// Whether the entry is expired right now. The answer is that of
    /// `is_expired_at` for the clock reading taken during the call.
    pub fn is_expired(&self) -> (expired: bool)
        ensures
            exists|now: Instant| expired == #[trigger] self.expired_at(now),
    {
        let now = clock_now();
        self.is_expired_at(now)
    }
}

impl<T> Deref for Data<T> {
    type Target = T;

    /// Read access to the stored value.
    fn deref(&self) -> (object: &T)
        ensures
            *object == self.object,
    {
        &self.object
    }
}

} // verus!
